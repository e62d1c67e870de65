//! The leap month: of the lunar months between two winter solstices, the
//! first that holds no mid-term repeats the number of the month before it.
use vstd::prelude::*;
use crate::types::LunarMonth;

verus! {

/// How many of the first `n` months have begun by the instant `t`.
pub open spec fn started_by(months: Seq<LunarMonth>, t: int, n: int) -> int
    decreases n,
{
    if n <= 0 {
        0
    } else {
        started_by(months, t, n - 1) + (if months[n - 1].jd <= t {
            1int
        } else {
            0int
        })
    }
}

/// One of the first twelve mid-terms falls in month `i`: at or after its
/// first day, and before the first day of the next month.
pub open spec fn holds_mid_term(months: Seq<LunarMonth>, mid_terms: Seq<i64>, i: int) -> bool {
    exists|j: int| 0 <= j < 12 && months[i].jd <= #[trigger] mid_terms[j] < months[i + 1].jd
}

/// The first month from `from` on, of those that have a next month, that
/// holds no mid-term.
pub open spec fn first_without_mid_term(
    months: Seq<LunarMonth>,
    mid_terms: Seq<i64>,
    from: int,
) -> Option<int>
    decreases 14 - from,
{
    if from >= 14 {
        None
    } else if !holds_mid_term(months, mid_terms, from) {
        Some(from)
    } else {
        first_without_mid_term(months, mid_terms, from + 1)
    }
}

/// Where the leap month falls among the fifteen. There is none when
/// thirteen months have begun by the last mid-term, the winter solstice
/// that ends the year: twelve months then lie between the two solstices.
/// Otherwise it is the first month that holds no mid-term.
pub open spec fn leap_position(months: Seq<LunarMonth>, mid_terms: Seq<i64>) -> Option<int> {
    if started_by(months, mid_terms[12] as int, 15) == 13 {
        None
    } else {
        first_without_mid_term(months, mid_terms, 0)
    }
}

/// The number before a month's number, round the year.
pub open spec fn previous_number(num: u8) -> u8 {
    if num <= 1 {
        12
    } else {
        (num - 1) as u8
    }
}

/// Month `k` once the leap month is placed at `position`: months before
/// it are as they were; the leap month is marked; from it on, each month
/// takes the number before its own.
pub open spec fn resolved_month(
    months: Seq<LunarMonth>,
    position: Option<int>,
    k: int,
) -> LunarMonth {
    match position {
        Some(p) => if k >= p {
            LunarMonth {
                num: previous_number(months[k].num),
                jd: months[k].jd,
                is_leap: months[k].is_leap || k == p,
            }
        } else {
            months[k]
        },
        None => months[k],
    }
}

/// The fifteen months with the leap month placed.
pub open spec fn calc_leap_month_spec(months: Seq<LunarMonth>, mid_terms: Seq<i64>) -> Seq<
    LunarMonth,
> {
    Seq::new(15, |k: int| resolved_month(months, leap_position(months, mid_terms), k))
}

/// One of the months is a leap month.
pub open spec fn has_leap_month(months: Seq<LunarMonth>) -> bool {
    exists|k: int| 0 <= k < months.len() && (#[trigger] months[k]).is_leap
}

fn month_holds_mid_term(months: &[LunarMonth; 15], mid_terms: &[i64; 13], i: usize) -> (r: bool)
    requires
        i < 14,
    ensures
        r == holds_mid_term(months@, mid_terms@, i as int),
{
    let mut j: usize = 0;
    while j < 12
        invariant
            j <= 12,
            i < 14,
            forall|k: int|
                0 <= k < j ==> !(months[i as int].jd <= #[trigger] mid_terms[k] < months[i + 1].jd),
        decreases 12 - j,
    {
        if months[i].jd <= mid_terms[j] && mid_terms[j] < months[i + 1].jd {
            return true;
        }
        j += 1;
    }
    false
}

fn count_started(months: &[LunarMonth; 15], t: i64) -> (r: usize)
    ensures
        r == started_by(months@, t as int, 15),
        r <= 15,
{
    let mut count: usize = 0;
    let mut i: usize = 0;
    while i < 15
        invariant
            i <= 15,
            count <= i,
            count == started_by(months@, t as int, i as int),
        decreases 15 - i,
    {
        if months[i].jd <= t {
            count += 1;
        }
        i += 1;
    }
    count
}

/// Finds where the leap month falls.
pub fn find_leap_position(months: &[LunarMonth; 15], mid_terms: &[i64; 13]) -> (r: Option<usize>)
    ensures
        r matches Some(p) ==> p < 14 && leap_position(months@, mid_terms@) == Some(p as int),
        r is None ==> leap_position(months@, mid_terms@) is None,
{
    if count_started(months, mid_terms[12]) == 13 {
        return None;
    }
    let mut i: usize = 0;
    while i < 14
        invariant
            i <= 14,
            started_by(months@, mid_terms[12] as int, 15) != 13,
            first_without_mid_term(months@, mid_terms@, 0) == first_without_mid_term(
                months@,
                mid_terms@,
                i as int,
            ),
        decreases 14 - i,
    {
        if !month_holds_mid_term(months, mid_terms, i) {
            return Some(i);
        }
        i += 1;
    }
    None
}

/// Places the leap month among the fifteen lunar months.
///
/// `jds_middle_solar_term` holds the thirteen mid-terms from one winter
/// solstice to the next. When thirteen months have begun by the last of
/// them, the months are returned as they came. Otherwise the first month
/// that holds none of the first twelve mid-terms is marked as the leap
/// month, and from it on every month takes the number before its own.
pub fn calc_leap_month(
    lunar_month: [LunarMonth; 15],
    jds_middle_solar_term: [i64; 13],
) -> (r: [LunarMonth; 15])
    ensures
        r@ == calc_leap_month_spec(lunar_month@, jds_middle_solar_term@),
        forall|k: int| 0 <= k < 15 ==> (#[trigger] r[k]).jd == lunar_month[k].jd,
        (forall|k: int| 0 <= k < 15 ==> (#[trigger] lunar_month[k]).wf()) ==> (forall|k: int|
            0 <= k < 15 ==> (#[trigger] r[k]).wf()),
        (forall|k: int| 0 <= k < 15 ==> !(#[trigger] lunar_month[k]).is_leap) ==> (forall|
            a: int,
            b: int,
        |
            0 <= a < 15 && 0 <= b < 15 && (#[trigger] r[a]).is_leap && (#[trigger] r[b]).is_leap
                ==> a == b),
{
    let position: usize = match find_leap_position(&lunar_month, &jds_middle_solar_term) {
        Some(p) => p,
        None => {
            assert(lunar_month@ =~= calc_leap_month_spec(lunar_month@, jds_middle_solar_term@));
            return lunar_month;
        },
    };
    let ghost place = Some(position as int);
    let mut months: [LunarMonth; 15] = lunar_month;
    let mut k: usize = position;
    while k < 15
        invariant
            position <= k <= 15,
            place == Some(position as int),
            forall|n: int|
                0 <= n < k ==> #[trigger] months[n] == resolved_month(lunar_month@, place, n),
            forall|n: int| k <= n < 15 ==> #[trigger] months[n] == lunar_month[n],
        decreases 15 - k,
    {
        let was: LunarMonth = months[k];
        let num: u8 = if was.num <= 1 {
            12
        } else {
            was.num - 1
        };
        months[k] = LunarMonth { num, jd: was.jd, is_leap: was.is_leap || k == position };
        k += 1;
    }
    assert(months@ =~= calc_leap_month_spec(lunar_month@, jds_middle_solar_term@));
    months
}

/// Whether one of the months is a leap month.
pub fn any_leap_month(months: &[LunarMonth; 15]) -> (r: bool)
    ensures
        r == has_leap_month(months@),
{
    let mut k: usize = 0;
    while k < 15
        invariant
            k <= 15,
            forall|n: int| 0 <= n < k ==> !(#[trigger] months[n]).is_leap,
        decreases 15 - k,
    {
        if months[k].is_leap {
            return true;
        }
        k += 1;
    }
    false
}

/// At most one month is a leap month: placing the leap month among months
/// of which none is marked marks the month at the leap position, and no
/// other.
pub proof fn lemma_one_leap_month(months: Seq<LunarMonth>, mid_terms: Seq<i64>)
    requires
        months.len() == 15,
        forall|k: int| 0 <= k < 15 ==> !(#[trigger] months[k]).is_leap,
    ensures
        forall|k: int|
            0 <= k < 15 ==> ((#[trigger] calc_leap_month_spec(months, mid_terms)[k]).is_leap
                <==> Some(k) == leap_position(months, mid_terms)),
        has_leap_month(calc_leap_month_spec(months, mid_terms)) <==> leap_position(
            months,
            mid_terms,
        ) is Some,
{
    let r = calc_leap_month_spec(months, mid_terms);
    lemma_leap_position_range(months, mid_terms);
    match leap_position(months, mid_terms) {
        Some(p) => {
            assert(r[p].is_leap);
        },
        None => {},
    }
}

/// The leap month is one that has a next month, holds no mid-term, and
/// follows only months that hold one.
pub proof fn lemma_leap_position_range(months: Seq<LunarMonth>, mid_terms: Seq<i64>)
    ensures
        leap_position(months, mid_terms) matches Some(p) ==> 0 <= p < 14 && !holds_mid_term(
            months,
            mid_terms,
            p,
        ) && forall|k: int| 0 <= k < p ==> holds_mid_term(months, mid_terms, k),
{
    lemma_first_without(months, mid_terms, 0);
}

proof fn lemma_first_without(months: Seq<LunarMonth>, mid_terms: Seq<i64>, from: int)
    requires
        0 <= from,
    ensures
        (match first_without_mid_term(months, mid_terms, from) {
            Some(p) => from <= p < 14 && !holds_mid_term(months, mid_terms, p) && forall|k: int|
                from <= k < p ==> holds_mid_term(months, mid_terms, k),
            None => forall|k: int| from <= k < 14 ==> holds_mid_term(months, mid_terms, k),
        }),
    decreases 14 - from,
{
    if from < 14 && holds_mid_term(months, mid_terms, from) {
        lemma_first_without(months, mid_terms, from + 1);
    }
}

/// The number after a month's number, round the year.
pub open spec fn next_number(num: u8) -> u8 {
    if num >= 12 {
        1
    } else {
        (num + 1) as u8
    }
}

/// With the leap month placed, the numbers still go round the year: where
/// each month's number followed that of the month before it, it still
/// does, but for the leap month, which repeats the number before it.
pub proof fn lemma_numbers_follow(months: Seq<LunarMonth>, mid_terms: Seq<i64>, k: int)
    requires
        months.len() == 15,
        0 <= k < 14,
        forall|n: int| 0 <= n < 15 ==> (#[trigger] months[n]).wf(),
        forall|n: int| 0 <= n < 14 ==> (#[trigger] months[n + 1]).num == next_number(months[n].num),
    ensures
        ({
            let r = calc_leap_month_spec(months, mid_terms);
            if leap_position(months, mid_terms) == Some(k + 1) {
                r[k + 1].num == r[k].num
            } else {
                r[k + 1].num == next_number(r[k].num)
            }
        }),
{
    assert(months[k].wf());
    assert(months[k + 1].wf());
    assert(months[k + 1].num == next_number(months[k].num));
}

} // verus!
