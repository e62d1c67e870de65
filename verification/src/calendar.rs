//! The conversion itself: from a civil date and time to the lunar date,
//! the four sexagenary labels and the two solar terms of the solar month.
use vstd::prelude::*;
use crate::civil::{get_ut8_date_time_from_jd, get_ut8_date_time_from_jd_spec};
use crate::ephemeris::{Ephemeris, Oracle};
use crate::labels::{
    day_label, day_label_spec, hour_label, hour_label_spec, locate_month, locate_month_spec,
    lunar_day, lunar_day_spec, lunar_year_start, lunar_year_start_spec, month_label,
    month_label_spec, solar_month_index, solar_month_index_spec, year_label, year_label_spec,
};
use crate::leap_month::{
    any_leap_month, calc_leap_month, calc_leap_month_spec, has_leap_month, lemma_numbers_follow,
    lemma_one_leap_month, next_number,
};
use crate::lunar_month::{
    LONGEST_LUNATION, SHORTEST_LUNATION, get15_lunar_month_jds, lemma_local_midnight,
    lemma_month_length, lemma_month_numbers, local_midnight_spec, lunar_month_spec,
};
use crate::names::{
    day_name, day_name_spec, month_name, month_name_spec, solar_term_name, solar_term_name_spec,
};
use crate::new_moon::{get15_new_moon_jds, new_moons_spec};
use crate::solar_term::{
    SOLAR_TERM_STEP, get25_solar_term_jds, solar_terms_spec, sun_long_to_jd, sun_long_to_jd_spec,
};
use crate::types::{
    Body, Calendar, CalendarError, EphemerisFailure, InvalidInput, LunarCalendar,
    LunarCalendarView, LunarMonth, SolarTerm, SolarTermView,
};
use crate::units::{
    DEGREE, MICROS_PER_DAY, MICROS_PER_HOUR, MICROS_PER_MINUTE, MICROS_PER_SECOND, ZONE_OFFSET,
    in_domain, is_in_domain,
};
use crate::validate::{
    calendar_of, calendar_of_spec, field_fault, vaild_date_time, vaild_date_time_spec,
};

verus! {

/// The solar terms and the lunar months from which a date in one civil
/// year is read: the twenty-five solar terms from the winter solstice of
/// the year before to that of the year, and the fifteen lunar months from
/// the one that holds the first solstice, with the leap month placed.
pub struct YearFrame {
    pub solar_terms: [i64; 25],
    pub months: [LunarMonth; 15],
}

/// What a `YearFrame` holds, as sequences.
pub struct YearFrameView {
    pub solar_terms: Seq<i64>,
    pub months: Seq<LunarMonth>,
}

impl View for YearFrame {
    type V = YearFrameView;

    open spec fn view(&self) -> YearFrameView {
        YearFrameView { solar_terms: self.solar_terms@, months: self.months@ }
    }
}

/// The mid-terms among twenty-five solar terms: every second one, from
/// the first.
pub open spec fn mid_terms_spec(solar_terms: Seq<i64>) -> Seq<i64> {
    Seq::new(13, |j: int| solar_terms[2 * j])
}

/// The months that begin with fifteen new moons, before the leap month is
/// placed.
pub open spec fn lunar_months_spec(new_moons: Seq<i64>) -> Seq<LunarMonth> {
    Seq::new(15, |i: int| lunar_month_spec(i, new_moons[i]))
}

/// The frame of the civil year after `solstice_year`. The search for the
/// first solstice begins at the start of 20 December of `solstice_year`.
pub open spec fn year_frame_spec(oracle: Oracle, solstice_year: i32) -> Result<
    YearFrameView,
    CalendarError,
> {
    let seed = (oracle.julian_day)(solstice_year, 12, 20, Calendar::Gregorian);
    match solar_terms_spec(oracle.longitude, seed, 25) {
        Err(e) => Err(e),
        Ok(solar_terms) => match new_moons_spec(oracle.longitude, solar_terms[0], 15) {
            Err(e) => Err(e),
            Ok(new_moons) => Ok(
                YearFrameView {
                    solar_terms,
                    months: calc_leap_month_spec(
                        lunar_months_spec(new_moons),
                        mid_terms_spec(solar_terms),
                    ),
                },
            ),
        },
    }
}

/// The instant of a civil date and time of the civil time zone: the start
/// of the date at UTC, the time of day, and the zone's offset back.
pub open spec fn query_instant_spec(
    oracle: Oracle,
    year: i32,
    month: u8,
    day: u8,
    hour: u8,
    minute: u8,
    second: u8,
) -> Result<i64, CalendarError> {
    let start = (oracle.julian_day)(year, month, day, calendar_of_spec(year, month, day));
    let jd = start + hour * MICROS_PER_HOUR + minute * MICROS_PER_MINUTE + second
        * MICROS_PER_SECOND - ZONE_OFFSET;
    if in_domain(start as int) && in_domain(jd) {
        Ok(jd as i64)
    } else {
        Err(CalendarError::EphemerisQuery(EphemerisFailure::InstantOutOfDomain))
    }
}

/// The sun's longitude at the sectional term that opens a solar month.
pub open spec fn opening_longitude(month_index: int) -> int {
    ((255 + 30 * month_index) % 360) * DEGREE
}

/// The sun's longitude at the mid-term of a solar month.
pub open spec fn middle_longitude(month_index: int) -> int {
    ((270 + 30 * month_index) % 360) * DEGREE
}

/// A solar term as it is shown: its name, and the civil date and time of
/// its instant.
pub open spec fn solar_term_spec(oracle: Oracle, name_index: int, jd: i64) -> SolarTermView {
    let at = get_ut8_date_time_from_jd_spec(jd, oracle.civil_date);
    SolarTermView {
        name: solar_term_name_spec(name_index),
        year: at.0,
        month: at.1,
        day: at.2,
        hour: at.3,
        minute: at.4,
        second: at.5,
    }
}

/// The two solar terms of a solar month, for an instant in it: the
/// sectional term, sought from the instant, and the mid-term, sought from
/// fifteen days after the sectional term.
pub open spec fn bounding_terms_spec(oracle: Oracle, jd: i64, month_index: int) -> Result<
    (SolarTermView, SolarTermView),
    CalendarError,
> {
    match sun_long_to_jd_spec(oracle.longitude, jd, opening_longitude(month_index) as i64) {
        Err(e) => Err(e),
        Ok(first) => match sun_long_to_jd_spec(
            oracle.longitude,
            (first + SOLAR_TERM_STEP) as i64,
            middle_longitude(month_index) as i64,
        ) {
            Err(e) => Err(e),
            Ok(second) => Ok(
                (
                    solar_term_spec(oracle, 2 * month_index, first),
                    solar_term_spec(oracle, 2 * month_index + 1, second),
                ),
            ),
        },
    }
}

/// The names of the lunar month and of the day of an instant: the month
/// is the one in which the instant falls, and the day is counted in whole
/// days from the month's first day. There are none where the instant falls
/// in none of the months, or beyond the thirtieth day of its month.
pub open spec fn lunar_month_and_day_spec(months: Seq<LunarMonth>, jd: i64) -> Option<
    (Seq<char>, Seq<char>),
> {
    match locate_month_spec(months, jd, 0) {
        None => None,
        Some(n) => if lunar_day_spec(months[n].jd, jd) > 30 {
            None
        } else {
            Some(
                (
                    month_name_spec(months[n].num as int, months[n].is_leap),
                    day_name_spec(lunar_day_spec(months[n].jd, jd)),
                ),
            )
        },
    }
}

/// The lunisolar date of an instant `jd` of civil year `year`, at civil
/// hour `hour`, read from the frame of that year.
///
/// The lunar year changes with the first month, the year of the solar
/// terms at the start of spring, the fourth of the frame's solar terms. The
/// solar month is read from the sun's longitude at the instant.
pub open spec fn read_frame_spec(
    oracle: Oracle,
    frame: YearFrameView,
    year: i32,
    hour: u8,
    jd: i64,
) -> Result<LunarCalendarView, CalendarError> {
    match lunar_month_and_day_spec(frame.months, jd) {
        None => Err(CalendarError::EphemerisQuery(EphemerisFailure::QueryNotCovered)),
        Some(names) => match (oracle.longitude)(jd, Body::Sun) {
            Err(e) => Err(CalendarError::EphemerisQuery(EphemerisFailure::Reported(e))),
            Ok(sun) => {
                let month_index = solar_month_index_spec(sun as int);
                let term_year = year_label_spec(year, jd < frame.solar_terms[3]);
                let day = day_label_spec(jd);
                match bounding_terms_spec(oracle, jd, month_index) {
                    Err(e) => Err(e),
                    Ok(terms) => Ok(
                        LunarCalendarView {
                            is_lean_year: has_leap_month(frame.months),
                            lunar_year: year_label_spec(
                                year,
                                jd < lunar_year_start_spec(frame.months),
                            ),
                            lunar_month: names.0,
                            lunar_day: names.1,
                            lunar_year_gan_zhi: term_year,
                            lunar_month_gan_zhi: month_label_spec(term_year.gan, month_index),
                            lunar_day_gan_zhi: day,
                            time_gan_zhi: hour_label_spec(day.gan, hour),
                            solar_term_first: terms.0,
                            solar_term_second: terms.1,
                        },
                    ),
                }
            },
        },
    }
}

/// The instant falls in one of the months of the frame, and not beyond
/// the thirtieth day of that month.
pub open spec fn covered(frame: YearFrameView, jd: i64) -> bool {
    lunar_month_and_day_spec(frame.months, jd) is Some
}

/// What a date holds that is read from the frame and the instant alone:
/// the leap year, the lunar year, month and day, the year of the solar
/// terms and the label of the day.
pub open spec fn reads_from_frame(
    date: LunarCalendarView,
    frame: YearFrameView,
    year: i32,
    jd: i64,
) -> bool {
    &&& date.is_lean_year == has_leap_month(frame.months)
    &&& date.lunar_year == year_label_spec(year, jd < lunar_year_start_spec(frame.months))
    &&& Some((date.lunar_month, date.lunar_day)) == lunar_month_and_day_spec(frame.months, jd)
    &&& date.lunar_year_gan_zhi == year_label_spec(year, jd < frame.solar_terms[3])
    &&& date.lunar_day_gan_zhi == day_label_spec(jd)
}

/// How the parts of a date hang together, whatever the sky: every label is
/// a pair of the cycle; the label of the solar month goes with the stem of
/// the year of the solar terms, and its branch names the two solar terms;
/// the label of the double hour goes with the stem of the day; the solar
/// terms show times of day.
pub open spec fn consistent(date: LunarCalendarView, hour: u8) -> bool {
    let month_index = date.lunar_month_gan_zhi.zhi.index();
    &&& date.lunar_year.wf()
    &&& date.lunar_year_gan_zhi.wf()
    &&& date.lunar_month_gan_zhi.wf()
    &&& date.lunar_day_gan_zhi.wf()
    &&& date.time_gan_zhi.wf()
    &&& date.lunar_month_gan_zhi == month_label_spec(date.lunar_year_gan_zhi.gan, month_index)
    &&& date.time_gan_zhi == hour_label_spec(date.lunar_day_gan_zhi.gan, hour)
    &&& date.solar_term_first.name == solar_term_name_spec(2 * month_index)
    &&& date.solar_term_second.name == solar_term_name_spec(2 * month_index + 1)
    &&& date.solar_term_first.hour < 24 && date.solar_term_first.minute < 60
        && date.solar_term_first.second < 60
    &&& date.solar_term_second.hour < 24 && date.solar_term_second.minute < 60
        && date.solar_term_second.second < 60
}

/// The whole conversion, for an ephemeris whose services are the
/// functions of `oracle`.
///
/// It fails with `Configuration` where no location of the ephemeris data
/// is given, and then with the verdict of the validation, before anything
/// is asked of the ephemeris about the sky. The frame is that of the
/// civil year; the year before the earliest civil year has none.
pub open spec fn lunar_calendar_spec(
    oracle: Oracle,
    year: i32,
    month: u8,
    day: u8,
    hour: u8,
    minute: u8,
    second: u8,
    ephe_path: Seq<char>,
) -> Result<LunarCalendarView, CalendarError> {
    if ephe_path.len() == 0 {
        Err(CalendarError::Configuration)
    } else {
        match vaild_date_time_spec(year, month, day, hour, minute, second, oracle.date_exists) {
            Err(e) => Err(e),
            Ok(_) => if year == i32::MIN {
                Err(CalendarError::InputValidation(InvalidInput::Year))
            } else {
                match year_frame_spec(oracle, (year - 1) as i32) {
                    Err(e) => Err(e),
                    Ok(frame) => match query_instant_spec(
                        oracle,
                        year,
                        month,
                        day,
                        hour,
                        minute,
                        second,
                    ) {
                        Err(e) => Err(e),
                        Ok(jd) => read_frame_spec(oracle, frame, year, hour, jd),
                    },
                }
            },
        }
    }
}

/// In every frame at most one month is a leap month, and a date read
/// from the frame is marked as falling in a leap year exactly when there
/// is one.
pub proof fn lemma_leap_year_flag(
    oracle: Oracle,
    solstice_year: i32,
    year: i32,
    hour: u8,
    jd: i64,
)
    ensures
        year_frame_spec(oracle, solstice_year) matches Ok(frame) ==> ({
            &&& frame.months.len() == 15
            &&& forall|a: int, b: int|
                0 <= a < 15 && 0 <= b < 15 && (#[trigger] frame.months[a]).is_leap
                    && (#[trigger] frame.months[b]).is_leap ==> a == b
            &&& read_frame_spec(oracle, frame, year, hour, jd) matches Ok(date)
                ==> (date.is_lean_year <==> (exists|k: int|
                0 <= k < 15 && (#[trigger] frame.months[k]).is_leap))
        }),
{
    match year_frame_spec(oracle, solstice_year) {
        Ok(frame) => {
            let solar_terms = solar_terms_spec(
                oracle.longitude,
                (oracle.julian_day)(solstice_year, 12, 20, Calendar::Gregorian),
                25,
            )->Ok_0;
            let new_moons = new_moons_spec(oracle.longitude, solar_terms[0], 15)->Ok_0;
            lemma_one_leap_month(lunar_months_spec(new_moons), mid_terms_spec(solar_terms));
        },
        Err(_) => {},
    }
}

/// In every frame the months are numbered round the year from the
/// eleventh: each month's number is one of the twelve and follows that of
/// the month before it, but for the leap month, which repeats it.
pub proof fn lemma_frame_numbers(oracle: Oracle, solstice_year: i32, k: int)
    requires
        0 <= k < 14,
    ensures
        year_frame_spec(oracle, solstice_year) matches Ok(frame) ==> ({
            &&& frame.months[0].num == 11 || (frame.months[0].is_leap && frame.months[0].num == 10)
            &&& frame.months[k].wf()
            &&& frame.months[k + 1].wf()
            &&& if frame.months[k + 1].is_leap {
                frame.months[k + 1].num == frame.months[k].num
            } else {
                frame.months[k + 1].num == next_number(frame.months[k].num)
            }
        }),
{
    match year_frame_spec(oracle, solstice_year) {
        Ok(frame) => {
            let solar_terms = solar_terms_spec(
                oracle.longitude,
                (oracle.julian_day)(solstice_year, 12, 20, Calendar::Gregorian),
                25,
            )->Ok_0;
            let new_moons = new_moons_spec(oracle.longitude, solar_terms[0], 15)->Ok_0;
            let plain = lunar_months_spec(new_moons);
            let mid_terms = mid_terms_spec(solar_terms);
            assert forall|n: int| 0 <= n < 15 implies (#[trigger] plain[n]).wf()
                && !plain[n].is_leap by {
                lemma_month_numbers(n);
            }
            assert forall|n: int| 0 <= n < 14 implies (#[trigger] plain[n + 1]).num == next_number(
                plain[n].num,
            ) by {
                lemma_month_numbers(n);
                lemma_month_numbers(n + 1);
            }
            lemma_month_numbers(0);
            lemma_one_leap_month(plain, mid_terms);
            lemma_numbers_follow(plain, mid_terms, k);
        },
        Err(_) => {},
    }
}

/// Where each of fifteen new moons follows the one before it after 29.2
/// to 29.9 days, the months built on them lie in a row without gaps, each
/// of 29 or 30 days: every instant from the first day of the first month
/// to the first day of the last falls in one of them, on one of its first
/// thirty days, and so has a lunar month and day, wherever the leap month
/// is placed.
pub proof fn lemma_spaced_new_moons_cover(new_moons: Seq<i64>, mid_terms: Seq<i64>, jd: i64)
    requires
        new_moons.len() == 15,
        forall|i: int|
            0 <= i < 14 ==> SHORTEST_LUNATION <= #[trigger] new_moons[i + 1] - new_moons[i]
                <= LONGEST_LUNATION,
        forall|i: int| 0 <= i < 15 ==> in_domain(#[trigger] new_moons[i] as int),
        lunar_months_spec(new_moons)[0].jd <= jd < lunar_months_spec(new_moons)[14].jd,
    ensures
        lunar_month_and_day_spec(
            calc_leap_month_spec(lunar_months_spec(new_moons), mid_terms),
            jd,
        ) is Some,
{
    let plain = lunar_months_spec(new_moons);
    let months = calc_leap_month_spec(plain, mid_terms);
    assert forall|i: int| 0 <= i < 15 implies (#[trigger] months[i]).jd == local_midnight_spec(
        new_moons[i] as int,
    ) by {
        lemma_local_midnight(new_moons[i] as int);
        assert(plain[i].jd == local_midnight_spec(new_moons[i] as int));
    }
    assert forall|i: int| 0 <= i < 14 implies 29 * MICROS_PER_DAY <= (#[trigger] months[i + 1]).jd
        - months[i].jd <= 30 * MICROS_PER_DAY by {
        assert(SHORTEST_LUNATION <= new_moons[i + 1] - new_moons[i] <= LONGEST_LUNATION);
        lemma_month_length(new_moons[i] as int, new_moons[i + 1] as int);
    }
    lemma_row_of_months_covers(months, jd, 0);
}

/// In a row of months of at most thirty days each, an instant that is not
/// before the first day of month `from` and is before the first day of the
/// last month has a lunar month and day.
proof fn lemma_row_of_months_covers(months: Seq<LunarMonth>, jd: i64, from: int)
    requires
        months.len() == 15,
        0 <= from < 14,
        forall|i: int|
            0 <= i < 14 ==> 0 <= (#[trigger] months[i + 1]).jd - months[i].jd <= 30
                * MICROS_PER_DAY,
        months[from].jd <= jd < months[14].jd,
    ensures
        locate_month_spec(months, jd, from) matches Some(n) && from <= n < 14 && 1
            <= lunar_day_spec(months[n].jd, jd) <= 30,
        from == 0 ==> lunar_month_and_day_spec(months, jd) is Some,
    decreases 14 - from,
{
    if jd < months[from + 1].jd {
        let span = jd - months[from].jd;
        assert(months[from + 1].jd - months[from].jd <= 30 * MICROS_PER_DAY);
        assert(0 <= span < 30 * MICROS_PER_DAY);
        vstd::arithmetic::div_mod::lemma_fundamental_div_mod(span, MICROS_PER_DAY as int);
        vstd::arithmetic::div_mod::lemma_mod_bound(span, MICROS_PER_DAY as int);
        let q = span / (MICROS_PER_DAY as int);
        if q >= 30 {
            assert((MICROS_PER_DAY as int) * q >= (MICROS_PER_DAY as int) * 30) by (nonlinear_arith)
                requires
                    q >= 30,
            ;
        }
        if q < 0 {
            assert((MICROS_PER_DAY as int) * q <= -(MICROS_PER_DAY as int)) by (nonlinear_arith)
                requires
                    q <= -1,
            ;
        }
    } else {
        lemma_row_of_months_covers(months, jd, from + 1);
    }
}

/// Works out the frame of the civil year after `solstice_year`.
pub fn year_frame<V, J, C, L>(solstice_year: i32, ephemeris: &Ephemeris<V, J, C, L>) -> (r: Result<
    YearFrame,
    CalendarError,
>) where
    V: Fn(i32, u8, u8, u8, u8, u8, Calendar) -> bool,
    J: Fn(i32, u8, u8, Calendar) -> i64,
    C: Fn(i64, Calendar) -> (i32, u8, u8),
    L: Fn(i64, Body) -> Result<i64, String>,

    requires
        ephemeris.callable(),
    ensures
        forall|oracle: Oracle| #[trigger]
            ephemeris.computes(oracle) ==> (match year_frame_spec(oracle, solstice_year) {
                Ok(frame) => r matches Ok(got) && got@ == frame,
                Err(e) => r matches Err(got) && got == e,
            }),
        r matches Ok(got) ==> (forall|k: int| 0 <= k < 15 ==> (#[trigger] got.months[k]).wf())
            && (forall|a: int, b: int|
            0 <= a < 15 && 0 <= b < 15 && (#[trigger] got.months[a]).is_leap
                && (#[trigger] got.months[b]).is_leap ==> a == b),
        r matches Err(e) ==> e.from_the_sky(),
{
    let seed: i64 = (ephemeris.julian_day)(solstice_year, 12, 20, Calendar::Gregorian);
    let solar_terms: [i64; 25] = match get25_solar_term_jds(seed, &ephemeris.longitude) {
        Ok(jds) => jds,
        Err(e) => {
            return Err(e);
        },
    };
    let new_moons: [i64; 15] = match get15_new_moon_jds(solar_terms[0], &ephemeris.longitude) {
        Ok(jds) => jds,
        Err(e) => {
            return Err(e);
        },
    };
    let plain: [LunarMonth; 15] = get15_lunar_month_jds(new_moons);
    let mut mid_terms: [i64; 13] = [0i64;13];
    let mut j: usize = 0;
    while j < 13
        invariant
            j <= 13,
            forall|k: int| 0 <= k < j ==> #[trigger] mid_terms[k] == solar_terms[2 * k],
        decreases 13 - j,
    {
        mid_terms[j] = solar_terms[2 * j];
        j += 1;
    }
    let months: [LunarMonth; 15] = calc_leap_month(plain, mid_terms);
    proof {
        assert(mid_terms@ =~= mid_terms_spec(solar_terms@));
        assert(plain@ =~= lunar_months_spec(new_moons@));
    }
    Ok(YearFrame { solar_terms, months })
}

/// Finds the instant of a civil date and time of the civil time zone.
pub fn query_instant<V, J, C, L>(
    year: i32,
    month: u8,
    day: u8,
    hour: u8,
    minute: u8,
    second: u8,
    ephemeris: &Ephemeris<V, J, C, L>,
) -> (r: Result<i64, CalendarError>) where
    V: Fn(i32, u8, u8, u8, u8, u8, Calendar) -> bool,
    J: Fn(i32, u8, u8, Calendar) -> i64,
    C: Fn(i64, Calendar) -> (i32, u8, u8),
    L: Fn(i64, Body) -> Result<i64, String>,

    requires
        ephemeris.callable(),
    ensures
        forall|oracle: Oracle| #[trigger]
            ephemeris.computes(oracle) ==> r == query_instant_spec(
                oracle,
                year,
                month,
                day,
                hour,
                minute,
                second,
            ),
        r matches Ok(jd) ==> in_domain(jd as int),
        r matches Err(e) ==> e == CalendarError::EphemerisQuery(
            EphemerisFailure::InstantOutOfDomain,
        ),
{
    let start: i64 = (ephemeris.julian_day)(year, month, day, calendar_of(year, month, day));
    if !is_in_domain(start) {
        return Err(CalendarError::EphemerisQuery(EphemerisFailure::InstantOutOfDomain));
    }
    let time_of_day: i64 = hour as i64 * MICROS_PER_HOUR + minute as i64 * MICROS_PER_MINUTE
        + second as i64 * MICROS_PER_SECOND;
    let jd: i64 = start + time_of_day - ZONE_OFFSET;
    if !is_in_domain(jd) {
        return Err(CalendarError::EphemerisQuery(EphemerisFailure::InstantOutOfDomain));
    }
    Ok(jd)
}

/// The sun's longitude at the sectional term and at the mid-term of a
/// solar month.
pub fn solar_month_angles(month_index: u8) -> (r: (i64, i64))
    requires
        month_index < 12,
    ensures
        r.0 == opening_longitude(month_index as int),
        r.1 == middle_longitude(month_index as int),
{
    let first: i64 = (255 + 30 * (month_index as i64)) % 360;
    let second: i64 = (270 + 30 * (month_index as i64)) % 360;
    (first * DEGREE, second * DEGREE)
}

/// Shows a solar term: its name, and the civil date and time of its
/// instant.
pub fn solar_term_at<V, J, C, L>(name_index: u8, jd: i64, ephemeris: &Ephemeris<V, J, C, L>) -> (r:
    SolarTerm) where
    V: Fn(i32, u8, u8, u8, u8, u8, Calendar) -> bool,
    J: Fn(i32, u8, u8, Calendar) -> i64,
    C: Fn(i64, Calendar) -> (i32, u8, u8),
    L: Fn(i64, Body) -> Result<i64, String>,

    requires
        ephemeris.callable(),
        name_index < 24,
        in_domain(jd as int),
    ensures
        forall|oracle: Oracle| #[trigger]
            ephemeris.computes(oracle) ==> r@ == solar_term_spec(oracle, name_index as int, jd),
        r.name@ == solar_term_name_spec(name_index as int),
        r.hour < 24 && r.minute < 60 && r.second < 60,
{
    let (year, month, day, hour, minute, second) = get_ut8_date_time_from_jd(
        jd,
        &ephemeris.civil_date,
    );
    SolarTerm { name: solar_term_name(name_index), year, month, day, hour, minute, second }
}

/// Finds the two solar terms of a solar month, for an instant in it.
pub fn bounding_terms<V, J, C, L>(
    jd: i64,
    month_index: u8,
    ephemeris: &Ephemeris<V, J, C, L>,
) -> (r: Result<(SolarTerm, SolarTerm), CalendarError>) where
    V: Fn(i32, u8, u8, u8, u8, u8, Calendar) -> bool,
    J: Fn(i32, u8, u8, Calendar) -> i64,
    C: Fn(i64, Calendar) -> (i32, u8, u8),
    L: Fn(i64, Body) -> Result<i64, String>,

    requires
        ephemeris.callable(),
        month_index < 12,
    ensures
        forall|oracle: Oracle| #[trigger]
            ephemeris.computes(oracle) ==> (match bounding_terms_spec(
                oracle,
                jd,
                month_index as int,
            ) {
                Ok(terms) => r matches Ok(got) && got.0@ == terms.0 && got.1@ == terms.1,
                Err(e) => r matches Err(got) && got == e,
            }),
        r matches Ok(got) ==> got.0.name@ == solar_term_name_spec(2 * month_index) && got.1.name@
            == solar_term_name_spec(2 * month_index + 1) && got.0.hour < 24 && got.0.minute < 60
            && got.0.second < 60 && got.1.hour < 24 && got.1.minute < 60 && got.1.second < 60,
        r matches Err(e) ==> e.from_the_sky(),
{
    let (opening, middle) = solar_month_angles(month_index);
    let first: i64 = match sun_long_to_jd(jd, opening, &ephemeris.longitude) {
        Ok(t) => t,
        Err(e) => {
            return Err(e);
        },
    };
    let first_term: SolarTerm = solar_term_at(2 * month_index, first, ephemeris);
    let second: i64 = match sun_long_to_jd(first + SOLAR_TERM_STEP, middle, &ephemeris.longitude) {
        Ok(t) => t,
        Err(e) => {
            return Err(e);
        },
    };
    let second_term: SolarTerm = solar_term_at(2 * month_index + 1, second, ephemeris);
    Ok((first_term, second_term))
}

/// Names the lunar month and the day of an instant.
pub fn lunar_month_and_day(months: &[LunarMonth; 15], jd: i64) -> (r: Option<(String, String)>)
    requires
        forall|k: int| 0 <= k < 15 ==> (#[trigger] months[k]).wf(),
    ensures
        (match lunar_month_and_day_spec(months@, jd) {
            Some(names) => r matches Some(got) && got.0@ == names.0 && got.1@ == names.1,
            None => r is None,
        }),
{
    let n: usize = match locate_month(months, jd) {
        Some(n) => n,
        None => {
            return None;
        },
    };
    let month: LunarMonth = months[n];
    assert(month.wf());
    if jd as i128 - month.jd as i128 > i64::MAX as i128 {
        proof {
            vstd::arithmetic::div_mod::lemma_div_is_ordered(
                i64::MAX as int,
                jd - month.jd,
                MICROS_PER_DAY as int,
            );
        }
        return None;
    }
    let ordinal: i64 = lunar_day(month.jd, jd);
    if ordinal > 30 {
        return None;
    }
    Some((month_name(month.num, month.is_leap), day_name(ordinal as u8)))
}

/// Reads the lunisolar date of an instant from the frame of its civil
/// year.
pub fn read_frame<V, J, C, L>(
    frame: &YearFrame,
    year: i32,
    hour: u8,
    jd: i64,
    ephemeris: &Ephemeris<V, J, C, L>,
) -> (r: Result<LunarCalendar, CalendarError>) where
    V: Fn(i32, u8, u8, u8, u8, u8, Calendar) -> bool,
    J: Fn(i32, u8, u8, Calendar) -> i64,
    C: Fn(i64, Calendar) -> (i32, u8, u8),
    L: Fn(i64, Body) -> Result<i64, String>,

    requires
        ephemeris.callable(),
        in_domain(jd as int),
        forall|k: int| 0 <= k < 15 ==> (#[trigger] frame.months[k]).wf(),
    ensures
        forall|oracle: Oracle| #[trigger]
            ephemeris.computes(oracle) ==> (match read_frame_spec(oracle, frame@, year, hour, jd) {
                Ok(date) => r matches Ok(got) && got@ == date,
                Err(e) => r matches Err(got) && got == e,
            }),
        r matches Ok(got) ==> covered(frame@, jd) && reads_from_frame(got@, frame@, year, jd)
            && consistent(got@, hour),
        !covered(frame@, jd) ==> (r matches Err(e) && e == CalendarError::EphemerisQuery(
            EphemerisFailure::QueryNotCovered,
        )),
        covered(frame@, jd) ==> (r matches Err(e) ==> e.from_the_sky()),
{
    let (lunar_month, lunar_day) = match lunar_month_and_day(&frame.months, jd) {
        Some(names) => names,
        None => {
            return Err(CalendarError::EphemerisQuery(EphemerisFailure::QueryNotCovered));
        },
    };
    let lunar_year = year_label(year, jd, lunar_year_start(&frame.months));
    let day = day_label(jd);
    let term_year = year_label(year, jd, frame.solar_terms[3]);
    let sun: i64 = match (ephemeris.longitude)(jd, Body::Sun) {
        Ok(sun) => sun,
        Err(e) => {
            return Err(CalendarError::EphemerisQuery(EphemerisFailure::Reported(e)));
        },
    };
    let month_index: u8 = solar_month_index(sun);
    let month_gan_zhi = month_label(term_year.gan(), month_index);
    let time_gan_zhi = hour_label(day.gan(), hour);
    let (solar_term_first, solar_term_second) = match bounding_terms(jd, month_index, ephemeris) {
        Ok(terms) => terms,
        Err(e) => {
            return Err(e);
        },
    };
    let date = LunarCalendar {
        is_lean_year: any_leap_month(&frame.months),
        lunar_year,
        lunar_month,
        lunar_day,
        lunar_year_gan_zhi: term_year,
        lunar_month_gan_zhi: month_gan_zhi,
        lunar_day_gan_zhi: day,
        time_gan_zhi,
        solar_term_first,
        solar_term_second,
    };
    proof {
        assert(month_gan_zhi.zhi.index() == month_index as int);
        assert(date@.lunar_month_gan_zhi.zhi.index() == month_index as int);
        assert(consistent(date@, hour));
        assert(reads_from_frame(date@, frame@, year, jd));
    }
    Ok(date)
}

/// Converts a civil date and time of the civil time zone, eight hours
/// east of UTC, to the lunisolar calendar.
///
/// `ephe_path` names the location of the ephemeris data, and must not be
/// empty. The date and time are validated before anything is asked of the
/// ephemeris about the sky. Then the frame of the civil year is worked
/// out, the instant of the date and time is placed in it, and the date is
/// read. The first failure ends the conversion.
pub fn lunar_calendar<V, J, C, L>(
    year: i32,
    month: u8,
    day: u8,
    hour: u8,
    minute: u8,
    second: u8,
    ephe_path: &str,
    ephemeris: &Ephemeris<V, J, C, L>,
) -> (r: Result<LunarCalendar, CalendarError>) where
    V: Fn(i32, u8, u8, u8, u8, u8, Calendar) -> bool,
    J: Fn(i32, u8, u8, Calendar) -> i64,
    C: Fn(i64, Calendar) -> (i32, u8, u8),
    L: Fn(i64, Body) -> Result<i64, String>,

    requires
        ephemeris.callable(),
    ensures
        forall|oracle: Oracle| #[trigger]
            ephemeris.computes(oracle) ==> (match lunar_calendar_spec(
                oracle,
                year,
                month,
                day,
                hour,
                minute,
                second,
                ephe_path@,
            ) {
                Ok(date) => r matches Ok(got) && got@ == date,
                Err(e) => r matches Err(got) && got == e,
            }),
        ephe_path@.len() == 0 ==> (r matches Err(e) && e == CalendarError::Configuration),
        ephe_path@.len() > 0 ==> (match field_fault(year, month, day, hour, minute, second) {
            Some(fault) => r matches Err(e) && e == CalendarError::InputValidation(fault),
            None => !(r matches Err(e) && e == CalendarError::Configuration),
        }),
        (r matches Err(e) && e == CalendarError::Configuration) ==> ephe_path@.len() == 0,
        r matches Err(CalendarError::InputValidation(fault)) ==> field_fault(
            year,
            month,
            day,
            hour,
            minute,
            second,
        ) == Some(fault) || (field_fault(year, month, day, hour, minute, second) is None && (fault
            == InvalidInput::NoSuchDate || (fault == InvalidInput::Year && year == i32::MIN))),
        r matches Ok(got) ==> consistent(got@, hour),
{
    if ephe_path.is_empty() {
        return Err(CalendarError::Configuration);
    }
    match vaild_date_time(year, month, day, hour, minute, second, &ephemeris.date_exists) {
        Ok(_) => {},
        Err(e) => {
            return Err(e);
        },
    }
    if year == i32::MIN {
        return Err(CalendarError::InputValidation(InvalidInput::Year));
    }
    let frame: YearFrame = match year_frame(year - 1, ephemeris) {
        Ok(frame) => frame,
        Err(e) => {
            return Err(e);
        },
    };
    let jd: i64 = match query_instant(year, month, day, hour, minute, second, ephemeris) {
        Ok(jd) => jd,
        Err(e) => {
            return Err(e);
        },
    };
    read_frame(&frame, year, hour, jd, ephemeris)
}

} // verus!
