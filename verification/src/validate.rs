//! Validation of a civil date and time.
use vstd::prelude::*;
use crate::types::{Calendar, CalendarError, InvalidInput};

verus! {

/// The first fault among the fields of a civil date and time, taken in
/// the order year, month, day, hour, minute, second, and then the days that
/// the change of calendar dropped; `None` when every field is in range.
pub open spec fn field_fault(
    year: i32,
    month: u8,
    day: u8,
    hour: u8,
    minute: u8,
    second: u8,
) -> Option<InvalidInput> {
    if year == 0 {
        Some(InvalidInput::Year)
    } else if month < 1 || month > 12 {
        Some(InvalidInput::Month)
    } else if day < 1 || day > 31 {
        Some(InvalidInput::Day)
    } else if hour > 23 {
        Some(InvalidInput::Hour)
    } else if minute > 59 {
        Some(InvalidInput::Minute)
    } else if second > 59 {
        Some(InvalidInput::Second)
    } else if year == 1582 && month == 10 && 4 < day < 15 {
        Some(InvalidInput::TransitionGap)
    } else {
        None
    }
}

/// The calendar in force on a civil date: Gregorian from 15 October 1582,
/// Julian before.
pub open spec fn calendar_of_spec(year: i32, month: u8, day: u8) -> Calendar {
    if year < 1582 || (year == 1582 && (month < 10 || (month == 10 && day < 15))) {
        Calendar::Julian
    } else {
        Calendar::Gregorian
    }
}

/// The year as astronomers count it, for a year given as historians count
/// it: 1 BC, given as -1, is year 0.
pub open spec fn astronomical_year(year: i32) -> i32 {
    if year < 0 {
        (year + 1) as i32
    } else {
        year
    }
}

/// The verdict on a civil date and time, where `has_day` says which days
/// the months of a calendar have.
pub open spec fn vaild_date_time_spec(
    year: i32,
    month: u8,
    day: u8,
    hour: u8,
    minute: u8,
    second: u8,
    has_day: spec_fn(i32, u8, u8, u8, u8, u8, Calendar) -> bool,
) -> Result<(), CalendarError> {
    match field_fault(year, month, day, hour, minute, second) {
        Some(fault) => Err(CalendarError::InputValidation(fault)),
        None => if has_day(
            astronomical_year(year),
            month,
            day,
            hour,
            minute,
            second,
            calendar_of_spec(year, month, day),
        ) {
            Ok(())
        } else {
            Err(CalendarError::InputValidation(InvalidInput::NoSuchDate))
        },
    }
}

/// Whatever `f` answers is what `phi` gives: `f` computes the function
/// `phi`.
pub open spec fn validator_is<V: Fn(i32, u8, u8, u8, u8, u8, Calendar) -> bool>(
    f: &V,
    phi: spec_fn(i32, u8, u8, u8, u8, u8, Calendar) -> bool,
) -> bool {
    forall|y: i32, m: u8, d: u8, h: u8, mi: u8, s: u8, c: Calendar, r: bool| #[trigger]
        f.ensures((y, m, d, h, mi, s, c), r) ==> r == phi(y, m, d, h, mi, s, c)
}

/// Finds the first fault among the fields.
pub fn check_fields(year: i32, month: u8, day: u8, hour: u8, minute: u8, second: u8) -> (r: Option<
    InvalidInput,
>)
    ensures
        r == field_fault(year, month, day, hour, minute, second),
{
    if year == 0 {
        Some(InvalidInput::Year)
    } else if month < 1 || month > 12 {
        Some(InvalidInput::Month)
    } else if day < 1 || day > 31 {
        Some(InvalidInput::Day)
    } else if hour > 23 {
        Some(InvalidInput::Hour)
    } else if minute > 59 {
        Some(InvalidInput::Minute)
    } else if second > 59 {
        Some(InvalidInput::Second)
    } else if year == 1582 && month == 10 && day > 4 && day < 15 {
        Some(InvalidInput::TransitionGap)
    } else {
        None
    }
}

/// The calendar in force on a civil date.
pub fn calendar_of(year: i32, month: u8, day: u8) -> (r: Calendar)
    ensures
        r == calendar_of_spec(year, month, day),
{
    if year < 1582 {
        Calendar::Julian
    } else if year == 1582 && month < 10 {
        Calendar::Julian
    } else if year == 1582 && month == 10 && day < 15 {
        Calendar::Julian
    } else {
        Calendar::Gregorian
    }
}

/// Checks that a civil date and time exists.
///
/// The fields are checked first, and a fault among them is reported
/// whatever `date_exists` would say. Only when every field is in range is
/// `date_exists` asked, once, whether the month of that year has such a
/// day, with the year counted as astronomers do and under the calendar in
/// force on that date.
pub fn vaild_date_time<V>(
    year: i32,
    month: u8,
    day: u8,
    hour: u8,
    minute: u8,
    second: u8,
    date_exists: &V,
) -> (r: Result<(), CalendarError>) where V: Fn(i32, u8, u8, u8, u8, u8, Calendar) -> bool
    requires
        forall|y: i32, m: u8, d: u8, h: u8, mi: u8, s: u8, c: Calendar|
            date_exists.requires((y, m, d, h, mi, s, c)),
    ensures
        forall|phi: spec_fn(i32, u8, u8, u8, u8, u8, Calendar) -> bool| #[trigger]
            validator_is(date_exists, phi) ==> r == vaild_date_time_spec(
                year,
                month,
                day,
                hour,
                minute,
                second,
                phi,
            ),
        (match field_fault(year, month, day, hour, minute, second) {
            Some(fault) => r == Err::<(), CalendarError>(CalendarError::InputValidation(fault)),
            None => exists|found: bool|
                ({
                    &&& date_exists.ensures(
                        (
                            astronomical_year(year),
                            month,
                            day,
                            hour,
                            minute,
                            second,
                            calendar_of_spec(year, month, day),
                        ),
                        found,
                    )
                    &&& r == (if found {
                        Ok::<(), CalendarError>(())
                    } else {
                        Err::<(), CalendarError>(
                            CalendarError::InputValidation(InvalidInput::NoSuchDate),
                        )
                    })
                }),
        }),
{
    match check_fields(year, month, day, hour, minute, second) {
        Some(fault) => {
            return Err(CalendarError::InputValidation(fault));
        },
        None => {},
    }
    let calendar = calendar_of(year, month, day);
    let counted: i32 = if year < 0 {
        year + 1
    } else {
        year
    };
    let found: bool = date_exists(counted, month, day, hour, minute, second, calendar);
    if found {
        Ok(())
    } else {
        Err(CalendarError::InputValidation(InvalidInput::NoSuchDate))
    }
}

} // verus!
