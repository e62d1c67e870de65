//! The four sexagenary labels of an instant, and its place among the lunar
//! months: each under its own rule for where a year, a month or a day
//! begins.
use vstd::prelude::*;
use vstd::arithmetic::div_mod::{lemma_fundamental_div_mod, lemma_mod_bound, lemma_small_mod};
use crate::angle::{degnorm, lemma_norm360_range, lemma_wrap180_difference, norm360};
use crate::sexagenary::{DiZhi, GanZhi, TianGan, lemma_branch_round_trip};
use crate::types::LunarMonth;
use crate::units::{FULL_TURN, MICROS_PER_DAY, div_floor, in_domain, mod_floor};

verus! {

/// A year whose label is 甲子, the first of the cycle.
pub const CYCLE_YEAR: i64 = 1864;

/// The beginning of a day whose label is 甲子: civil midnight of
/// 7 April 2017, which is 16h UTC on 6 April.
pub const CYCLE_DAY: i64 = 212_358_254_400_000_000;

/// The sun's longitude at 大雪, with which the solar month of the branch
/// 子 begins: 255 degrees.
pub const MAJOR_SNOW: i64 = 255_000_000_000;

/// The arc of one solar month: 30 degrees.
pub const SOLAR_MONTH_ARC: i64 = 30_000_000_000;

/// The label of a civil year, or of the year before it for an instant
/// that comes before the year's beginning.
pub open spec fn year_label_spec(year: i32, before_beginning: bool) -> GanZhi {
    GanZhi::at(
        year - CYCLE_YEAR - (if before_beginning {
            1int
        } else {
            0int
        }),
    )
}

/// The first of the months from `from` on that is a first month and no
/// leap month.
pub open spec fn first_regular_first_month(months: Seq<LunarMonth>, from: int) -> Option<int>
    decreases months.len() - from,
{
    if from >= months.len() {
        None
    } else if months[from].num == 1 && !months[from].is_leap {
        Some(from)
    } else {
        first_regular_first_month(months, from + 1)
    }
}

/// The beginning of the lunar year among the months: the first day of
/// their first month; of the first of the months, where none of them is a
/// first month.
pub open spec fn lunar_year_start_spec(months: Seq<LunarMonth>) -> i64 {
    match first_regular_first_month(months, 0) {
        Some(k) => months[k].jd,
        None => months[0].jd,
    }
}

/// The label of the civil day of an instant: as many places after 甲子 as
/// whole days have passed since the beginning of a day 甲子.
pub open spec fn day_label_spec(jd: i64) -> GanZhi {
    GanZhi::at((jd - CYCLE_DAY) / (MICROS_PER_DAY as int))
}

/// The solar month for a longitude of the sun, 0 to 11: the number of
/// whole arcs of 30 degrees by which the sun is past 大雪.
pub open spec fn solar_month_index_spec(sun: int) -> int {
    norm360(sun - MAJOR_SNOW) / (SOLAR_MONTH_ARC as int)
}

/// The stem of the month of the branch 寅 in a year with this stem: 甲
/// and 己 give 丙, 乙 and 庚 give 戊, 丙 and 辛 give 庚, 丁 and 壬 give
/// 壬, 戊 and 癸 give 甲.
pub open spec fn tiger_stem_spec(year_gan: TianGan) -> TianGan {
    match year_gan {
        TianGan::Jia | TianGan::Ji => TianGan::Bing,
        TianGan::Yi | TianGan::Geng => TianGan::Wu,
        TianGan::Bing | TianGan::Xin => TianGan::Geng,
        TianGan::Ding | TianGan::Ren => TianGan::Ren,
        TianGan::Wu | TianGan::Gui => TianGan::Jia,
    }
}

/// The label of a solar month in a year with this stem. The branch is as
/// many places after 子 as the month's index; the stem is as many places
/// after the stem of the month 寅 as the branch is after 寅.
pub open spec fn month_label_spec(year_gan: TianGan, month_index: int) -> GanZhi {
    let zhi = DiZhi::Zi.plus_spec(month_index);
    GanZhi { gan: tiger_stem_spec(year_gan).plus_spec(zhi.minus_spec(DiZhi::Yin)), zhi }
}

/// The stem of the double hour 子 on a day with this stem: 甲 and 己
/// give 甲, 乙 and 庚 give 丙, 丙 and 辛 give 戊, 丁 and 壬 give 庚, 戊
/// and 癸 give 壬.
pub open spec fn rat_stem_spec(day_gan: TianGan) -> TianGan {
    match day_gan {
        TianGan::Jia | TianGan::Ji => TianGan::Jia,
        TianGan::Yi | TianGan::Geng => TianGan::Bing,
        TianGan::Bing | TianGan::Xin => TianGan::Wu,
        TianGan::Ding | TianGan::Ren => TianGan::Geng,
        TianGan::Wu | TianGan::Gui => TianGan::Ren,
    }
}

/// The label of a double hour on a day with this stem: as many places
/// after the label of the double hour 子 as half the hour after the next,
/// rounded down. At 23h that is twelve places, which brings the branch
/// 子 again, with the stem two places on.
pub open spec fn hour_label_spec(day_gan: TianGan, hour: u8) -> GanZhi {
    GanZhi { gan: rat_stem_spec(day_gan), zhi: DiZhi::Zi }.plus_spec((hour + 1) / 2)
}

/// The first of the months from `from` on, of those that have a next
/// month, in which the instant falls: at or after its first day, and
/// before the first day of the next.
pub open spec fn locate_month_spec(months: Seq<LunarMonth>, jd: i64, from: int) -> Option<int>
    decreases months.len() - from,
{
    if from + 1 >= months.len() {
        None
    } else if months[from].jd <= jd < months[from + 1].jd {
        Some(from)
    } else {
        locate_month_spec(months, jd, from + 1)
    }
}

/// The day of the lunar month, counted from 1, of an instant in a month
/// that begins at `start`.
pub open spec fn lunar_day_spec(start: i64, jd: i64) -> int {
    (jd - start) / (MICROS_PER_DAY as int) + 1
}

/// The label of a civil year for an instant `jd` in it, where the year of
/// that label begins at `beginning`: the label of the year before, for an
/// instant before the beginning.
pub fn year_label(year: i32, jd: i64, beginning: i64) -> (r: GanZhi)
    ensures
        r == year_label_spec(year, jd < beginning),
        r.wf(),
{
    let back: i64 = if jd < beginning {
        1
    } else {
        0
    };
    GanZhi::from_index(year as i64 - CYCLE_YEAR - back)
}

/// The beginning of the lunar year among the months.
pub fn lunar_year_start(months: &[LunarMonth; 15]) -> (r: i64)
    ensures
        r == lunar_year_start_spec(months@),
{
    let mut k: usize = 0;
    while k < 15
        invariant
            k <= 15,
            first_regular_first_month(months@, 0) == first_regular_first_month(months@, k as int),
        decreases 15 - k,
    {
        if months[k].num == 1 && !months[k].is_leap {
            return months[k].jd;
        }
        k += 1;
    }
    months[0].jd
}

/// The label of the civil day of an instant.
pub fn day_label(jd: i64) -> (r: GanZhi)
    requires
        in_domain(jd as int),
    ensures
        r == day_label_spec(jd),
        r.wf(),
{
    GanZhi::from_index(div_floor(jd - CYCLE_DAY, MICROS_PER_DAY))
}

/// The solar month for a longitude of the sun.
pub fn solar_month_index(sun: i64) -> (r: u8)
    ensures
        r == solar_month_index_spec(sun as int),
        r < 12,
{
    proof {
        lemma_wrap180_difference(sun as int, MAJOR_SNOW as int);
        lemma_norm360_range(sun - MAJOR_SNOW);
        lemma_fundamental_div_mod(norm360(sun - MAJOR_SNOW), SOLAR_MONTH_ARC as int);
        lemma_mod_bound(norm360(sun - MAJOR_SNOW), SOLAR_MONTH_ARC as int);
    }
    let past: i64 = mod_floor(degnorm(sun) - MAJOR_SNOW, FULL_TURN);
    (past / SOLAR_MONTH_ARC) as u8
}

/// The stem of the month of the branch 寅 in a year with this stem.
pub fn tiger_stem(year_gan: TianGan) -> (r: TianGan)
    ensures
        r == tiger_stem_spec(year_gan),
        r.index() % 2 == 0,
{
    match year_gan {
        TianGan::Jia | TianGan::Ji => TianGan::Bing,
        TianGan::Yi | TianGan::Geng => TianGan::Wu,
        TianGan::Bing | TianGan::Xin => TianGan::Geng,
        TianGan::Ding | TianGan::Ren => TianGan::Ren,
        TianGan::Wu | TianGan::Gui => TianGan::Jia,
    }
}

/// The stem of the double hour 子 on a day with this stem.
pub fn rat_stem(day_gan: TianGan) -> (r: TianGan)
    ensures
        r == rat_stem_spec(day_gan),
        r.index() % 2 == 0,
{
    match day_gan {
        TianGan::Jia | TianGan::Ji => TianGan::Jia,
        TianGan::Yi | TianGan::Geng => TianGan::Bing,
        TianGan::Bing | TianGan::Xin => TianGan::Wu,
        TianGan::Ding | TianGan::Ren => TianGan::Geng,
        TianGan::Wu | TianGan::Gui => TianGan::Ren,
    }
}

/// The label of a solar month in a year with this stem.
pub fn month_label(year_gan: TianGan, month_index: u8) -> (r: GanZhi)
    ensures
        r == month_label_spec(year_gan, month_index as int),
        r.wf(),
        r.zhi.index() == month_index % 12,
{
    let zhi: DiZhi = DiZhi::Zi.plus(month_index as i64);
    let places: u8 = zhi.minus(&DiZhi::Yin);
    let gan: TianGan = tiger_stem(year_gan).plus(places as i64);
    proof {
        lemma_month_label_wf(year_gan, month_index as int);
    }
    GanZhi { gan, zhi }
}

/// The label of a double hour on a day with this stem.
pub fn hour_label(day_gan: TianGan, hour: u8) -> (r: GanZhi)
    ensures
        r == hour_label_spec(day_gan, hour),
        r.wf(),
{
    let start = GanZhi { gan: rat_stem(day_gan), zhi: DiZhi::Zi };
    assert(start.wf());
    start.plus((hour as i64 + 1) / 2)
}

/// Finds the month in which an instant falls.
pub fn locate_month(months: &[LunarMonth; 15], jd: i64) -> (r: Option<usize>)
    ensures
        r matches Some(n) ==> n < 14 && locate_month_spec(months@, jd, 0) == Some(n as int)
            && months[n as int].jd <= jd < months[n + 1].jd,
        r is None ==> locate_month_spec(months@, jd, 0) is None,
{
    let mut n: usize = 0;
    while n < 14
        invariant
            n <= 14,
            locate_month_spec(months@, jd, 0) == locate_month_spec(months@, jd, n as int),
        decreases 14 - n,
    {
        if months[n].jd <= jd && jd < months[n + 1].jd {
            return Some(n);
        }
        n += 1;
    }
    None
}

/// The day of the lunar month, counted from 1, of an instant in a month
/// that begins at `start`.
pub fn lunar_day(start: i64, jd: i64) -> (r: i64)
    requires
        0 <= jd - start <= i64::MAX,
    ensures
        r == lunar_day_spec(start, jd),
        r >= 1,
{
    proof {
        crate::units::lemma_floor_quotient_fits(jd - start, MICROS_PER_DAY as int);
    }
    div_floor(jd - start, MICROS_PER_DAY) + 1
}

/// An instant falls in the month that is found for it, and in no earlier
/// one; where none is found, it falls in none of the months that have a
/// next month.
pub proof fn lemma_locate_month(months: Seq<LunarMonth>, jd: i64, from: int)
    requires
        0 <= from,
    ensures
        (match locate_month_spec(months, jd, from) {
            Some(n) => from <= n < months.len() - 1 && months[n].jd <= jd < months[n + 1].jd
                && forall|k: int|
                from <= k < n ==> !((#[trigger] months[k]).jd <= jd < months[k + 1].jd),
            None => forall|k: int|
                from <= k < months.len() - 1 ==> !((#[trigger] months[k]).jd <= jd < months[k
                    + 1].jd),
        }),
    decreases months.len() - from,
{
    if from + 1 < months.len() && !(months[from].jd <= jd < months[from + 1].jd) {
        lemma_locate_month(months, jd, from + 1);
    }
}

/// The label of a solar month is a pair of the cycle: the stem of the
/// month 寅 has an even place, and stem and branch move on together from
/// there.
pub proof fn lemma_month_label_wf(year_gan: TianGan, month_index: int)
    ensures
        month_label_spec(year_gan, month_index).wf(),
        month_label_spec(year_gan, month_index).zhi.index() == month_index % 12,
{
    let zhi = DiZhi::Zi.plus_spec(month_index);
    lemma_branch_round_trip(DiZhi::Zi, month_index);
    lemma_mod_bound(month_index, 12);
    let z = month_index % 12;
    assert(zhi.index() == z);
    let places = zhi.minus_spec(DiZhi::Yin);
    assert(places == (z - 2) % 12);
    assert(places == if z >= 2 {
        z - 2
    } else {
        z + 10
    }) by {
        if z >= 2 {
            lemma_small_mod((z - 2) as nat, 12);
        } else {
            vstd::arithmetic::div_mod::lemma_fundamental_div_mod_converse(z - 2, 12, -1, z + 10);
        }
    }
    let base = tiger_stem_spec(year_gan).index();
    assert(base % 2 == 0 && 0 <= base < 10);
    let g = (base + places) % 10;
    crate::sexagenary::lemma_stem_round_trip(tiger_stem_spec(year_gan), base + places);
    lemma_fundamental_div_mod(base + places, 10);
    let q = (base + places) / 10;
    assert(base + places == 10 * q + g);
    assert(g % 2 == places % 2) by {
        assert(g == base + places - 2 * (5 * q));
    }
}

} // verus!
