//! Whole conversions, against a tabulated sky.
//!
//! The sky of these tests is a table of solar terms and new moons, in civil
//! time. Between two entries the longitudes run evenly, so that the root
//! finder must find the tabulated instants again.

use lunar_calendar::calendar::{lunar_calendar, year_frame};
use lunar_calendar::ephemeris::Ephemeris;
use lunar_calendar::new_moon::get15_new_moon_jds;
use lunar_calendar::solar_term::get25_solar_term_jds;
use lunar_calendar::types::{
    Body, Calendar, CalendarError, EphemerisFailure, InvalidInput, LunarCalendar,
};

const SECOND: i64 = 1_000_000;
const HOUR: i64 = 3_600_000_000;
const DAY: i64 = 86_400_000_000;
const DEGREE: i64 = 1_000_000_000;

fn floor_div(a: i64, b: i64) -> i64 {
    a.div_euclid(b)
}

/// Number of the Julian day that begins at noon of a civil date.
fn day_number(year: i32, month: u8, day: u8, calendar: Calendar) -> i64 {
    let a = (14 - month as i64) / 12;
    let y = year as i64 + 4800 - a;
    let m = month as i64 + 12 * a - 3;
    let common = day as i64 + floor_div(153 * m + 2, 5) + 365 * y + floor_div(y, 4);
    match calendar {
        Calendar::Gregorian => common - floor_div(y, 100) + floor_div(y, 400) - 32045,
        Calendar::Julian => common - 32083,
    }
}

/// The instant at which a civil date begins, at 0h UTC.
fn day_start(year: i32, month: u8, day: u8, calendar: Calendar) -> i64 {
    day_number(year, month, day, calendar) * DAY - DAY / 2
}

/// The civil date, at UTC, on which an instant falls.
fn civil_date(jd: i64, calendar: Calendar) -> (i32, u8, u8) {
    let j = floor_div(jd + DAY / 2, DAY);
    let f = match calendar {
        Calendar::Gregorian => {
            j + 1401 + floor_div(floor_div(4 * j + 274277, 146097) * 3, 4) - 38
        }
        Calendar::Julian => j + 1401,
    };
    let e = 4 * f + 3;
    let g = floor_div(e.rem_euclid(1461), 4);
    let h = 5 * g + 2;
    let day = floor_div(h.rem_euclid(153), 5) + 1;
    let month = (floor_div(h, 153) + 2).rem_euclid(12) + 1;
    let year = floor_div(e, 1461) - 4716 + (12 + 2 - month) / 12;
    (year as i32, month as u8, day as u8)
}

/// Whether the month of a year has such a day: the date must come back from
/// its own day number.
fn has_day(year: i32, month: u8, day: u8, calendar: Calendar) -> bool {
    civil_date(day_start(year, month, day, calendar), calendar) == (year, month, day)
}

/// The instant of a civil date and time of the civil time zone.
fn instant(year: i32, month: u8, day: u8, hour: i64, minute: i64, second: i64) -> i64 {
    day_start(year, month, day, Calendar::Gregorian) + hour * HOUR + minute * 60 * SECOND
        + second * SECOND
        - 8 * HOUR
}

/// A sky: the instants of solar terms in a row, the sun's longitude at the
/// first of them in degrees, and the instants of new moons in a row.
struct Sky {
    first_longitude: i64,
    solar_terms: Vec<i64>,
    new_moons: Vec<i64>,
}

/// Place of `jd` among `marks`, in billionths of the way from one mark to the
/// next, counted from the first mark; beyond the ends, the outermost pace
/// goes on.
fn paces(marks: &[i64], jd: i64) -> i128 {
    let mut k = 0;
    while k + 2 < marks.len() && jd >= marks[k + 1] {
        k += 1;
    }
    let span = (marks[k + 1] - marks[k]) as i128;
    k as i128 * 1_000_000_000 + (jd - marks[k]) as i128 * 1_000_000_000 / span
}

impl Sky {
    fn sun(&self, jd: i64) -> i64 {
        let turned = self.first_longitude as i128 * DEGREE as i128
            + paces(&self.solar_terms, jd) * 15;
        turned.rem_euclid(360 * DEGREE as i128) as i64
    }

    fn moon(&self, jd: i64) -> i64 {
        let ahead = paces(&self.new_moons, jd) * 360;
        (self.sun(jd) as i128 + ahead).rem_euclid(360 * DEGREE as i128) as i64
    }

    fn longitude(&self, jd: i64, body: Body) -> Result<i64, String> {
        match body {
            Body::Sun => Ok(self.sun(jd)),
            Body::Moon => Ok(self.moon(jd)),
        }
    }
}

/// The sky from the winter solstice of 2021 to that of 2022.
fn sky_of_2022() -> Sky {
    Sky {
        first_longitude: 270,
        solar_terms: vec![
            instant(2021, 12, 21, 23, 59, 9),
            instant(2022, 1, 5, 17, 13, 54),
            instant(2022, 1, 20, 10, 38, 56),
            instant(2022, 2, 4, 4, 50, 36),
            instant(2022, 2, 19, 0, 42, 50),
            instant(2022, 3, 5, 22, 43, 34),
            instant(2022, 3, 20, 23, 33, 15),
            instant(2022, 4, 5, 3, 20, 3),
            instant(2022, 4, 20, 10, 24, 7),
            instant(2022, 5, 5, 20, 25, 46),
            instant(2022, 5, 21, 9, 22, 25),
            instant(2022, 6, 6, 0, 25, 37),
            instant(2022, 6, 21, 17, 13, 40),
            instant(2022, 7, 7, 10, 37, 49),
            instant(2022, 7, 23, 4, 6, 49),
            instant(2022, 8, 7, 20, 28, 57),
            instant(2022, 8, 23, 11, 15, 59),
            instant(2022, 9, 7, 23, 32, 7),
            instant(2022, 9, 23, 9, 3, 31),
            instant(2022, 10, 8, 15, 22, 16),
            instant(2022, 10, 23, 18, 35, 31),
            instant(2022, 11, 7, 18, 45, 18),
            instant(2022, 11, 22, 16, 20, 18),
            instant(2022, 12, 7, 11, 46, 4),
            instant(2022, 12, 22, 5, 48, 1),
        ],
        new_moons: vec![
            instant(2021, 12, 4, 15, 43, 0),
            instant(2022, 1, 3, 2, 33, 0),
            instant(2022, 2, 1, 13, 46, 0),
            instant(2022, 3, 3, 1, 35, 0),
            instant(2022, 4, 1, 14, 24, 0),
            instant(2022, 5, 1, 4, 28, 0),
            instant(2022, 5, 30, 19, 30, 0),
            instant(2022, 6, 29, 10, 52, 0),
            instant(2022, 7, 29, 1, 55, 0),
            instant(2022, 8, 27, 16, 17, 0),
            instant(2022, 9, 26, 5, 54, 0),
            instant(2022, 10, 25, 18, 49, 0),
            instant(2022, 11, 24, 6, 57, 0),
            instant(2022, 12, 23, 18, 17, 0),
            instant(2023, 1, 22, 4, 53, 0),
        ],
    }
}

/// The sky from the winter solstice of 2019 to that of 2020.
fn sky_of_2020() -> Sky {
    Sky {
        first_longitude: 270,
        solar_terms: vec![
            instant(2019, 12, 22, 12, 19, 18),
            instant(2020, 1, 6, 5, 29, 59),
            instant(2020, 1, 20, 22, 54, 33),
            instant(2020, 2, 4, 17, 3, 12),
            instant(2020, 2, 19, 12, 56, 53),
            instant(2020, 3, 5, 10, 56, 44),
            instant(2020, 3, 20, 11, 49, 29),
            instant(2020, 4, 4, 15, 38, 2),
            instant(2020, 4, 19, 22, 45, 21),
            instant(2020, 5, 5, 8, 51, 16),
            instant(2020, 5, 20, 21, 49, 9),
            instant(2020, 6, 5, 12, 58, 18),
            instant(2020, 6, 21, 5, 43, 33),
            instant(2020, 7, 6, 23, 14, 20),
            instant(2020, 7, 22, 16, 36, 44),
            instant(2020, 8, 7, 9, 6, 3),
            instant(2020, 8, 22, 23, 44, 48),
            instant(2020, 9, 7, 12, 7, 54),
            instant(2020, 9, 22, 21, 30, 32),
            instant(2020, 10, 8, 3, 55, 7),
            instant(2020, 10, 23, 6, 59, 25),
            instant(2020, 11, 7, 7, 13, 46),
            instant(2020, 11, 22, 4, 39, 38),
            instant(2020, 12, 7, 0, 9, 21),
            instant(2020, 12, 21, 18, 2, 12),
        ],
        new_moons: vec![
            instant(2019, 11, 26, 23, 6, 0),
            instant(2019, 12, 26, 13, 13, 0),
            instant(2020, 1, 25, 5, 42, 0),
            instant(2020, 2, 23, 23, 32, 0),
            instant(2020, 3, 24, 17, 28, 0),
            instant(2020, 4, 23, 10, 26, 0),
            instant(2020, 5, 23, 1, 39, 0),
            instant(2020, 6, 21, 14, 41, 0),
            instant(2020, 7, 21, 1, 33, 0),
            instant(2020, 8, 19, 10, 42, 0),
            instant(2020, 9, 17, 19, 0, 0),
            instant(2020, 10, 17, 3, 31, 0),
            instant(2020, 11, 15, 13, 7, 0),
            instant(2020, 12, 15, 0, 17, 0),
            instant(2021, 1, 13, 13, 0, 0),
        ],
    }
}

fn convert(
    sky: &Sky,
    year: i32,
    month: u8,
    day: u8,
    hour: u8,
    minute: u8,
    second: u8,
    ephe_path: &str,
) -> Result<LunarCalendar, CalendarError> {
    let ephemeris = Ephemeris {
        date_exists: |y: i32, m: u8, d: u8, _h: u8, _mi: u8, _s: u8, c: Calendar| {
            has_day(y, m, d, c)
        },
        julian_day: |y: i32, m: u8, d: u8, c: Calendar| day_start(y, m, d, c),
        civil_date: |jd: i64, c: Calendar| civil_date(jd, c),
        longitude: |jd: i64, body: Body| sky.longitude(jd, body),
    };
    lunar_calendar(year, month, day, hour, minute, second, ephe_path, &ephemeris)
}

#[test]
fn test_convert_to_lunar_calendar2022_1_10_22_5_3() {
    let data = convert(&sky_of_2022(), 2022, 1, 10, 22, 5, 3, "ephe");
    assert!(data.is_ok(), "{:?}", data);
    let data = data.unwrap();
    assert!(!data.is_lean_year);
    assert_eq!(data.lunar_year.name(), "辛丑");
    assert_eq!(data.lunar_month, "腊月");
    assert_eq!(data.lunar_day, "初八");
    assert_eq!(data.lunar_year_gan_zhi.name(), "辛丑");
    assert_eq!(data.lunar_month_gan_zhi.name(), "辛丑");
    assert_eq!(data.lunar_day_gan_zhi.name(), "癸亥");
    assert_eq!(data.time_gan_zhi.name(), "癸亥");
    let solar_term = data.solar_term_first;
    assert!(
        solar_term.name == "小寒"
            && solar_term.year == 2022
            && solar_term.month == 1
            && solar_term.day == 5
            && solar_term.hour == 17,
        "{:?}",
        solar_term
    );
    assert_eq!(solar_term.minute, 13);
    let solar_term = data.solar_term_second;
    assert!(
        solar_term.name == "大寒"
            && solar_term.year == 2022
            && solar_term.month == 1
            && solar_term.day == 20
            && solar_term.hour == 10,
        "{:?}",
        solar_term
    );
    assert_eq!(solar_term.minute, 38);
}

#[test]
fn test_convert_to_lunar_calendar2022_2_3_22_5_3() {
    let data = convert(&sky_of_2022(), 2022, 2, 3, 22, 5, 3, "ephe");
    assert!(data.is_ok(), "{:?}", data);
    let data = data.unwrap();
    assert!(!data.is_lean_year);
    assert_eq!(data.lunar_year.name(), "壬寅");
    assert_eq!(data.lunar_month, "正月");
    assert_eq!(data.lunar_day, "初三");
    assert_eq!(data.lunar_year_gan_zhi.name(), "辛丑");
    assert_eq!(data.lunar_month_gan_zhi.name(), "辛丑");
    assert_eq!(data.lunar_day_gan_zhi.name(), "丁亥");
    assert_eq!(data.time_gan_zhi.name(), "辛亥");
    let solar_term = data.solar_term_first;
    assert!(
        solar_term.name == "小寒"
            && solar_term.year == 2022
            && solar_term.month == 1
            && solar_term.day == 5
            && solar_term.hour == 17,
        "{:?}",
        solar_term
    );
    let solar_term = data.solar_term_second;
    assert!(
        solar_term.name == "大寒"
            && solar_term.year == 2022
            && solar_term.month == 1
            && solar_term.day == 20
            && solar_term.hour == 10,
        "{:?}",
        solar_term
    );
}

#[test]
fn test_convert_to_lunar_calendar2022_3_10_11_5_3() {
    let data = convert(&sky_of_2022(), 2022, 3, 10, 11, 5, 3, "ephe");
    assert!(data.is_ok(), "{:?}", data);
    let data = data.unwrap();
    assert!(!data.is_lean_year);
    assert_eq!(data.lunar_year.name(), "壬寅");
    assert_eq!(data.lunar_month, "二月");
    assert_eq!(data.lunar_day, "初八");
    assert_eq!(data.lunar_year_gan_zhi.name(), "壬寅");
    assert_eq!(data.lunar_month_gan_zhi.name(), "癸卯");
    assert_eq!(data.lunar_day_gan_zhi.name(), "壬戌");
    assert_eq!(data.time_gan_zhi.name(), "丙午");
    let solar_term = data.solar_term_first;
    assert!(
        solar_term.name == "惊蛰"
            && solar_term.year == 2022
            && solar_term.month == 3
            && solar_term.day == 5
            && solar_term.hour == 22,
        "{:?}",
        solar_term
    );
    let solar_term = data.solar_term_second;
    assert!(
        solar_term.name == "春分"
            && solar_term.year == 2022
            && solar_term.month == 3
            && solar_term.day == 20
            && solar_term.hour == 23,
        "{:?}",
        solar_term
    );
}

#[test]
fn test_convert_to_lunar_calendar2020_6_10_11_5_3() {
    let data = convert(&sky_of_2020(), 2020, 6, 10, 11, 5, 3, "ephe");
    assert!(data.is_ok(), "{:?}", data);
    let data = data.unwrap();
    assert!(data.is_lean_year);
    assert_eq!(data.lunar_year.name(), "庚子");
    assert_eq!(data.lunar_month, "闰四月");
    assert_eq!(data.lunar_day, "十九");
    assert_eq!(data.lunar_year_gan_zhi.name(), "庚子");
    assert_eq!(data.lunar_month_gan_zhi.name(), "壬午");
    assert_eq!(data.lunar_day_gan_zhi.name(), "甲申");
    assert_eq!(data.time_gan_zhi.name(), "庚午");
    let solar_term = data.solar_term_first;
    assert!(
        solar_term.name == "芒种"
            && solar_term.year == 2020
            && solar_term.month == 6
            && solar_term.day == 5
            && solar_term.hour == 12,
        "{:?}",
        solar_term
    );
    let solar_term = data.solar_term_second;
    assert!(
        solar_term.name == "夏至"
            && solar_term.year == 2020
            && solar_term.month == 6
            && solar_term.day == 21
            && solar_term.hour == 5,
        "{:?}",
        solar_term
    );
}

#[test]
fn solar_terms_are_found_in_order_and_evenly() {
    let sky = sky_of_2022();
    let seed = day_start(2021, 12, 20, Calendar::Gregorian);
    let found = get25_solar_term_jds(seed, &|jd: i64, body: Body| sky.longitude(jd, body));
    let found = found.unwrap();
    for i in 0..25 {
        assert!((found[i] - sky.solar_terms[i]).abs() < SECOND, "term {}", i);
    }
    for i in 1..25 {
        let apart = (found[i] - found[i - 1]) as f64 / DAY as f64;
        assert!(14.5 <= apart && apart <= 15.8, "terms {} and {}: {}", i - 1, i, apart);
    }
}

#[test]
fn the_spacing_of_the_solar_terms_is_that_of_the_sky() {
    // A sun that moves 30 degrees a day, from 270 degrees at the seed: each
    // search starts a turn and 90 degrees past the last term, and goes back
    // to where the sun stands 15 degrees, and a turn, past it.
    let seed = day_start(2021, 12, 20, Calendar::Gregorian);
    let fast = |jd: i64, _body: Body| {
        let turned = 270 * DEGREE as i128 + (jd - seed) as i128 * 30 * DEGREE as i128 / DAY as i128;
        Ok::<i64, String>(turned.rem_euclid(360 * DEGREE as i128) as i64)
    };
    let found = get25_solar_term_jds(seed, &fast).unwrap();
    assert!((found[0] - seed).abs() < SECOND);
    for i in 1..25 {
        let apart = found[i] - found[i - 1];
        assert!((apart - 25 * DAY / 2).abs() < SECOND, "terms {} and {}: {}", i - 1, i, apart);
    }
}

#[test]
fn new_moons_are_found_in_order_and_evenly() {
    let sky = sky_of_2022();
    let solstice = sky.solar_terms[0];
    let found = get15_new_moon_jds(solstice, &|jd: i64, body: Body| sky.longitude(jd, body));
    let found = found.unwrap();
    assert!(found[0] <= solstice);
    assert!(found[1] > solstice);
    for i in 0..15 {
        assert!((found[i] - sky.new_moons[i]).abs() < SECOND, "new moon {}", i);
    }
    for i in 1..15 {
        let apart = (found[i] - found[i - 1]) as f64 / DAY as f64;
        assert!(29.2 <= apart && apart <= 29.9, "moons {} and {}: {}", i - 1, i, apart);
    }
}

#[test]
fn a_year_without_a_leap_month_has_none_marked() {
    let sky = sky_of_2022();
    let ephemeris = Ephemeris {
        date_exists: |y: i32, m: u8, d: u8, _h: u8, _mi: u8, _s: u8, c: Calendar| {
            has_day(y, m, d, c)
        },
        julian_day: |y: i32, m: u8, d: u8, c: Calendar| day_start(y, m, d, c),
        civil_date: |jd: i64, c: Calendar| civil_date(jd, c),
        longitude: |jd: i64, body: Body| sky.longitude(jd, body),
    };
    let frame = year_frame(2021, &ephemeris).unwrap();
    assert_eq!(frame.months.iter().filter(|m| m.is_leap).count(), 0);
    let numbers: Vec<u8> = frame.months.iter().map(|m| m.num).collect();
    assert_eq!(numbers, vec![11, 12, 1, 2, 3, 4, 5, 6, 7, 8, 9, 10, 11, 12, 1]);
    assert_eq!(frame.months[2].jd, instant(2022, 2, 1, 0, 0, 0));
}

#[test]
fn a_year_with_a_leap_month_has_one_marked() {
    let sky = sky_of_2020();
    let ephemeris = Ephemeris {
        date_exists: |y: i32, m: u8, d: u8, _h: u8, _mi: u8, _s: u8, c: Calendar| {
            has_day(y, m, d, c)
        },
        julian_day: |y: i32, m: u8, d: u8, c: Calendar| day_start(y, m, d, c),
        civil_date: |jd: i64, c: Calendar| civil_date(jd, c),
        longitude: |jd: i64, body: Body| sky.longitude(jd, body),
    };
    let frame = year_frame(2019, &ephemeris).unwrap();
    assert_eq!(frame.months.iter().filter(|m| m.is_leap).count(), 1);
    assert!(frame.months[6].is_leap);
    let numbers: Vec<u8> = frame.months.iter().map(|m| m.num).collect();
    assert_eq!(numbers, vec![11, 12, 1, 2, 3, 4, 4, 5, 6, 7, 8, 9, 10, 11, 12]);
    assert_eq!(frame.months[6].jd, instant(2020, 5, 23, 0, 0, 0));
}

#[test]
fn an_empty_location_is_refused_first() {
    let r = convert(&sky_of_2022(), 2022, 13, 10, 22, 5, 3, "");
    assert_eq!(r, Err(CalendarError::Configuration));
}

#[test]
fn invalid_dates_are_refused_before_the_sky_is_asked() {
    let sky = sky_of_2022();
    let asked = std::cell::Cell::new(0u32);
    let ephemeris = Ephemeris {
        date_exists: |y: i32, m: u8, d: u8, _h: u8, _mi: u8, _s: u8, c: Calendar| {
            has_day(y, m, d, c)
        },
        julian_day: |y: i32, m: u8, d: u8, c: Calendar| day_start(y, m, d, c),
        civil_date: |jd: i64, c: Calendar| civil_date(jd, c),
        longitude: |jd: i64, body: Body| {
            asked.set(asked.get() + 1);
            sky.longitude(jd, body)
        },
    };
    let cases: Vec<((i32, u8, u8, u8, u8, u8), InvalidInput)> = vec![
        ((0, 1, 1, 0, 0, 0), InvalidInput::Year),
        ((2023, 13, 1, 0, 0, 0), InvalidInput::Month),
        ((2023, 0, 1, 0, 0, 0), InvalidInput::Month),
        ((2023, 1, 32, 0, 0, 0), InvalidInput::Day),
        ((2023, 1, 0, 0, 0, 0), InvalidInput::Day),
        ((2023, 1, 1, 24, 0, 0), InvalidInput::Hour),
        ((2023, 1, 1, 0, 60, 0), InvalidInput::Minute),
        ((2023, 1, 1, 0, 0, 60), InvalidInput::Second),
        ((2023, 2, 29, 0, 0, 0), InvalidInput::NoSuchDate),
        ((2023, 4, 31, 0, 0, 0), InvalidInput::NoSuchDate),
        ((1582, 10, 5, 0, 0, 0), InvalidInput::TransitionGap),
        ((1582, 10, 14, 0, 0, 0), InvalidInput::TransitionGap),
    ];
    for ((y, m, d, h, mi, s), fault) in cases {
        let r = lunar_calendar(y, m, d, h, mi, s, "ephe", &ephemeris);
        assert_eq!(r, Err(CalendarError::InputValidation(fault)), "{}-{}-{}", y, m, d);
    }
    assert_eq!(asked.get(), 0);
}

#[test]
fn a_failure_of_the_ephemeris_is_handed_on() {
    let ephemeris = Ephemeris {
        date_exists: |y: i32, m: u8, d: u8, _h: u8, _mi: u8, _s: u8, c: Calendar| {
            has_day(y, m, d, c)
        },
        julian_day: |y: i32, m: u8, d: u8, c: Calendar| day_start(y, m, d, c),
        civil_date: |jd: i64, c: Calendar| civil_date(jd, c),
        longitude: |_jd: i64, _body: Body| Err::<i64, String>("no data".to_string()),
    };
    let r = lunar_calendar(2022, 1, 10, 22, 5, 3, "ephe", &ephemeris);
    assert_eq!(
        r,
        Err(CalendarError::EphemerisQuery(EphemerisFailure::Reported("no data".to_string())))
    );
}

#[test]
fn a_sun_that_stands_still_is_not_converged_on() {
    let ephemeris = Ephemeris {
        date_exists: |y: i32, m: u8, d: u8, _h: u8, _mi: u8, _s: u8, c: Calendar| {
            has_day(y, m, d, c)
        },
        julian_day: |y: i32, m: u8, d: u8, c: Calendar| day_start(y, m, d, c),
        civil_date: |jd: i64, c: Calendar| civil_date(jd, c),
        longitude: |_jd: i64, _body: Body| Ok::<i64, String>(100 * DEGREE),
    };
    let r = lunar_calendar(2022, 1, 10, 22, 5, 3, "ephe", &ephemeris);
    assert_eq!(r, Err(CalendarError::NonConvergence));
}

#[test]
fn a_day_placed_out_of_the_domain_is_refused() {
    let sky = sky_of_2022();
    let ephemeris = Ephemeris {
        date_exists: |y: i32, m: u8, d: u8, _h: u8, _mi: u8, _s: u8, c: Calendar| {
            has_day(y, m, d, c)
        },
        julian_day: |y: i32, m: u8, d: u8, c: Calendar| {
            if y == 2022 {
                i64::MAX
            } else {
                day_start(y, m, d, c)
            }
        },
        civil_date: |jd: i64, c: Calendar| civil_date(jd, c),
        longitude: |jd: i64, body: Body| sky.longitude(jd, body),
    };
    let r = lunar_calendar(2022, 1, 10, 22, 5, 3, "ephe", &ephemeris);
    assert_eq!(r, Err(CalendarError::EphemerisQuery(EphemerisFailure::InstantOutOfDomain)));
}

#[test]
fn an_instant_outside_the_months_is_not_covered() {
    // The sky of 2020 is asked about a day of 2022: its fifteen months end
    // early in 2021.
    let sky = sky_of_2020();
    let ephemeris = Ephemeris {
        date_exists: |y: i32, m: u8, d: u8, _h: u8, _mi: u8, _s: u8, c: Calendar| {
            has_day(y, m, d, c)
        },
        julian_day: |y: i32, m: u8, d: u8, c: Calendar| {
            if m == 12 && d == 20 {
                day_start(2019, 12, 20, c)
            } else {
                day_start(y, m, d, c)
            }
        },
        civil_date: |jd: i64, c: Calendar| civil_date(jd, c),
        longitude: |jd: i64, body: Body| sky.longitude(jd, body),
    };
    let r = lunar_calendar(2022, 1, 10, 22, 5, 3, "ephe", &ephemeris);
    assert_eq!(r, Err(CalendarError::EphemerisQuery(EphemerisFailure::QueryNotCovered)));
}
