//! The names under which months, days and solar terms are shown.
use vstd::prelude::*;
use vstd::string::*;

verus! {

/// The numeral of a lunar month, 1 to 12; the first month is 正, the last
/// two are 冬 and 腊.
pub open spec fn month_numeral_spec(num: int) -> Seq<char> {
    if num == 1 {
        "正"@
    } else if num == 2 {
        "二"@
    } else if num == 3 {
        "三"@
    } else if num == 4 {
        "四"@
    } else if num == 5 {
        "五"@
    } else if num == 6 {
        "六"@
    } else if num == 7 {
        "七"@
    } else if num == 8 {
        "八"@
    } else if num == 9 {
        "九"@
    } else if num == 10 {
        "十"@
    } else if num == 11 {
        "冬"@
    } else {
        "腊"@
    }
}

/// The name of a lunar month: its numeral and 月, after 闰 for a leap
/// month.
pub open spec fn month_name_spec(num: int, is_leap: bool) -> Seq<char> {
    if is_leap {
        "闰"@ + month_numeral_spec(num) + "月"@
    } else {
        month_numeral_spec(num) + "月"@
    }
}

/// The name of a day of the lunar month, 1 to 30.
pub open spec fn day_name_spec(ordinal: int) -> Seq<char> {
    if ordinal == 1 {
        "初一"@
    } else if ordinal == 2 {
        "初二"@
    } else if ordinal == 3 {
        "初三"@
    } else if ordinal == 4 {
        "初四"@
    } else if ordinal == 5 {
        "初五"@
    } else if ordinal == 6 {
        "初六"@
    } else if ordinal == 7 {
        "初七"@
    } else if ordinal == 8 {
        "初八"@
    } else if ordinal == 9 {
        "初九"@
    } else if ordinal == 10 {
        "初十"@
    } else if ordinal == 11 {
        "十一"@
    } else if ordinal == 12 {
        "十二"@
    } else if ordinal == 13 {
        "十三"@
    } else if ordinal == 14 {
        "十四"@
    } else if ordinal == 15 {
        "十五"@
    } else if ordinal == 16 {
        "十六"@
    } else if ordinal == 17 {
        "十七"@
    } else if ordinal == 18 {
        "十八"@
    } else if ordinal == 19 {
        "十九"@
    } else if ordinal == 20 {
        "二十"@
    } else if ordinal == 21 {
        "二十一"@
    } else if ordinal == 22 {
        "二十二"@
    } else if ordinal == 23 {
        "二十三"@
    } else if ordinal == 24 {
        "二十四"@
    } else if ordinal == 25 {
        "二十五"@
    } else if ordinal == 26 {
        "二十六"@
    } else if ordinal == 27 {
        "二十七"@
    } else if ordinal == 28 {
        "二十八"@
    } else if ordinal == 29 {
        "二十九"@
    } else {
        "三十"@
    }
}

/// The name of a solar term. Terms are counted from 大雪, where the sun
/// stands at 255 degrees, in steps of 15 degrees: 0 to 23.
pub open spec fn solar_term_name_spec(index: int) -> Seq<char> {
    if index == 0 {
        "大雪"@
    } else if index == 1 {
        "冬至"@
    } else if index == 2 {
        "小寒"@
    } else if index == 3 {
        "大寒"@
    } else if index == 4 {
        "立春"@
    } else if index == 5 {
        "雨水"@
    } else if index == 6 {
        "惊蛰"@
    } else if index == 7 {
        "春分"@
    } else if index == 8 {
        "清明"@
    } else if index == 9 {
        "谷雨"@
    } else if index == 10 {
        "立夏"@
    } else if index == 11 {
        "小满"@
    } else if index == 12 {
        "芒种"@
    } else if index == 13 {
        "夏至"@
    } else if index == 14 {
        "小暑"@
    } else if index == 15 {
        "大暑"@
    } else if index == 16 {
        "立秋"@
    } else if index == 17 {
        "处暑"@
    } else if index == 18 {
        "白露"@
    } else if index == 19 {
        "秋分"@
    } else if index == 20 {
        "寒露"@
    } else if index == 21 {
        "霜降"@
    } else if index == 22 {
        "立冬"@
    } else {
        "小雪"@
    }
}

fn month_numeral(num: u8) -> (s: &'static str)
    ensures
        s@ == month_numeral_spec(num as int),
{
    if num == 1 {
        "正"
    } else if num == 2 {
        "二"
    } else if num == 3 {
        "三"
    } else if num == 4 {
        "四"
    } else if num == 5 {
        "五"
    } else if num == 6 {
        "六"
    } else if num == 7 {
        "七"
    } else if num == 8 {
        "八"
    } else if num == 9 {
        "九"
    } else if num == 10 {
        "十"
    } else if num == 11 {
        "冬"
    } else {
        "腊"
    }
}

/// The name of the lunar month with this number.
pub fn month_name(num: u8, is_leap: bool) -> (s: String)
    requires
        1 <= num <= 12,
    ensures
        s@ == month_name_spec(num as int, is_leap),
{
    let mut s = if is_leap {
        "闰".to_owned()
    } else {
        String::new()
    };
    s.append(month_numeral(num));
    s.append("月");
    assert(s@ =~= month_name_spec(num as int, is_leap));
    s
}

/// The name of this day of the lunar month.
pub fn day_name(ordinal: u8) -> (s: String)
    requires
        1 <= ordinal <= 30,
    ensures
        s@ == day_name_spec(ordinal as int),
{
    let name: &'static str =
    if ordinal == 1 {
        "初一"
    } else if ordinal == 2 {
        "初二"
    } else if ordinal == 3 {
        "初三"
    } else if ordinal == 4 {
        "初四"
    } else if ordinal == 5 {
        "初五"
    } else if ordinal == 6 {
        "初六"
    } else if ordinal == 7 {
        "初七"
    } else if ordinal == 8 {
        "初八"
    } else if ordinal == 9 {
        "初九"
    } else if ordinal == 10 {
        "初十"
    } else if ordinal == 11 {
        "十一"
    } else if ordinal == 12 {
        "十二"
    } else if ordinal == 13 {
        "十三"
    } else if ordinal == 14 {
        "十四"
    } else if ordinal == 15 {
        "十五"
    } else if ordinal == 16 {
        "十六"
    } else if ordinal == 17 {
        "十七"
    } else if ordinal == 18 {
        "十八"
    } else if ordinal == 19 {
        "十九"
    } else if ordinal == 20 {
        "二十"
    } else if ordinal == 21 {
        "二十一"
    } else if ordinal == 22 {
        "二十二"
    } else if ordinal == 23 {
        "二十三"
    } else if ordinal == 24 {
        "二十四"
    } else if ordinal == 25 {
        "二十五"
    } else if ordinal == 26 {
        "二十六"
    } else if ordinal == 27 {
        "二十七"
    } else if ordinal == 28 {
        "二十八"
    } else if ordinal == 29 {
        "二十九"
    } else {
        "三十"
    };
    name.to_owned()
}

/// The name of the solar term with this index.
pub fn solar_term_name(index: u8) -> (s: String)
    requires
        index < 24,
    ensures
        s@ == solar_term_name_spec(index as int),
{
    let name: &'static str =
    if index == 0 {
        "大雪"
    } else if index == 1 {
        "冬至"
    } else if index == 2 {
        "小寒"
    } else if index == 3 {
        "大寒"
    } else if index == 4 {
        "立春"
    } else if index == 5 {
        "雨水"
    } else if index == 6 {
        "惊蛰"
    } else if index == 7 {
        "春分"
    } else if index == 8 {
        "清明"
    } else if index == 9 {
        "谷雨"
    } else if index == 10 {
        "立夏"
    } else if index == 11 {
        "小满"
    } else if index == 12 {
        "芒种"
    } else if index == 13 {
        "夏至"
    } else if index == 14 {
        "小暑"
    } else if index == 15 {
        "大暑"
    } else if index == 16 {
        "立秋"
    } else if index == 17 {
        "处暑"
    } else if index == 18 {
        "白露"
    } else if index == 19 {
        "秋分"
    } else if index == 20 {
        "寒露"
    } else if index == 21 {
        "霜降"
    } else if index == 22 {
        "立冬"
    } else {
        "小雪"
    };
    name.to_owned()
}

} // verus!
