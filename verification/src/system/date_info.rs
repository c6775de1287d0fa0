use crate::models::date::DateInfo;
use crate::utils::text::{decimal_string, decimal_text};
use chrono::Datelike;
use vstd::prelude::*;
use vstd::string::*;

verus! {

/// A day of the week.
#[derive(Clone, Copy, Debug, PartialEq, Eq, Structural)]
pub enum Weekday {
    Mon,
    Tue,
    Wed,
    Thu,
    Fri,
    Sat,
    Sun,
}

/// A day as the local clock of this machine gives it.
struct LocalDay {
    /// The solar date, written out.
    solar_date: String,
    weekday: Weekday,
    /// Month of the year, from 1.
    month: u32,
    /// Day of the month, from 1.
    day: u32,
}

/// The name of a day of the week.
pub open spec fn weekday_text(weekday: Weekday) -> Seq<char> {
    match weekday {
        Weekday::Mon => "星期一"@,
        Weekday::Tue => "星期二"@,
        Weekday::Wed => "星期三"@,
        Weekday::Thu => "星期四"@,
        Weekday::Fri => "星期五"@,
        Weekday::Sat => "星期六"@,
        Weekday::Sun => "星期日"@,
    }
}

/// A number from one to ten as its Chinese numeral, any other number in
/// decimal.
pub open spec fn chinese_number_text(num: int) -> Seq<char> {
    if num == 1 {
        "一"@
    } else if num == 2 {
        "二"@
    } else if num == 3 {
        "三"@
    } else if num == 4 {
        "四"@
    } else if num == 5 {
        "五"@
    } else if num == 6 {
        "六"@
    } else if num == 7 {
        "七"@
    } else if num == 8 {
        "八"@
    } else if num == 9 {
        "九"@
    } else if num == 10 {
        "十"@
    } else {
        decimal_text(num)
    }
}

/// The year that the sample lunar calendar gives to every day.
pub open spec fn lunar_year_text() -> Seq<char> {
    "甲辰年"@
}

/// The month of the sample lunar calendar: the first month of the quarter
/// that the solar month lies in.
pub open spec fn lunar_month_text(month: int) -> Seq<char> {
    if 1 <= month <= 3 {
        "正月"@
    } else if 4 <= month <= 6 {
        "四月"@
    } else if 7 <= month <= 9 {
        "七月"@
    } else {
        "十月"@
    }
}

/// The day of the sample lunar calendar: a word for the decade of the solar
/// day of the month, and the number of the day within it.
pub open spec fn lunar_day_text(day: int) -> Seq<char> {
    if 1 <= day <= 10 {
        "初"@ + chinese_number_text(day)
    } else if 11 <= day <= 20 {
        "十"@ + chinese_number_text(day - 10)
    } else if 21 <= day <= 31 {
        "廿"@ + chinese_number_text(day - 20)
    } else {
        decimal_text(day) + "日"@
    }
}

/// Whether a date info describes a day with the given place in the week and
/// in the solar year. The solar date is written out elsewhere and not held
/// to anything here.
pub open spec fn describes_day(info: DateInfo, weekday: Weekday, month: int, day: int) -> bool {
    &&& info.weekday@ == weekday_text(weekday)
    &&& info.lunar_year@ == lunar_year_text()
    &&& info.lunar_month@ == lunar_month_text(month)
    &&& info.lunar_day@ == lunar_day_text(day)
    &&& info.lunar_date@ == lunar_year_text() + lunar_month_text(month) + lunar_day_text(day)
}

/// The current day in the time zone of this machine.
///
/// The moment is read by `chrono::Local::now`; its solar date is written by
/// `DateTime::format`, and `weekday`, `month` and `day` of `chrono::Datelike`
/// give the rest. Which day that is depends on the clock and the time zone,
/// so nothing is claimed of it but the ranges that `Datelike` gives for
/// `month`, from 1 to 12, and for `day`, from 1 to 31. The pattern is tied
/// down because `format` fails on a pattern that it cannot read.
#[verifier::external_body]
fn local_today(pattern: &str) -> (today: LocalDay)
    requires
        pattern@ == "%Y年%m月%d日"@,
    ensures
        1 <= today.month <= 12,
        1 <= today.day <= 31,
{
    let now = chrono::Local::now();
    let weekday = match now.weekday() {
        chrono::Weekday::Mon => Weekday::Mon,
        chrono::Weekday::Tue => Weekday::Tue,
        chrono::Weekday::Wed => Weekday::Wed,
        chrono::Weekday::Thu => Weekday::Thu,
        chrono::Weekday::Fri => Weekday::Fri,
        chrono::Weekday::Sat => Weekday::Sat,
        chrono::Weekday::Sun => Weekday::Sun,
    };
    LocalDay { solar_date: now.format(pattern).to_string(), weekday, month: now.month(), day: now.day() }
}

/// The name of a day of the week.
pub fn weekday_name(weekday: Weekday) -> (name: String)
    ensures
        name@ == weekday_text(weekday),
{
    match weekday {
        Weekday::Mon => String::from_str("星期一"),
        Weekday::Tue => String::from_str("星期二"),
        Weekday::Wed => String::from_str("星期三"),
        Weekday::Thu => String::from_str("星期四"),
        Weekday::Fri => String::from_str("星期五"),
        Weekday::Sat => String::from_str("星期六"),
        Weekday::Sun => String::from_str("星期日"),
    }
}

/// A number from one to ten as its Chinese numeral, any other number in
/// decimal.
pub fn get_chinese_number(num: i32) -> (text: String)
    ensures
        text@ == chinese_number_text(num as int),
{
    match num {
        1 => String::from_str("一"),
        2 => String::from_str("二"),
        3 => String::from_str("三"),
        4 => String::from_str("四"),
        5 => String::from_str("五"),
        6 => String::from_str("六"),
        7 => String::from_str("七"),
        8 => String::from_str("八"),
        9 => String::from_str("九"),
        10 => String::from_str("十"),
        _ => decimal_string(num as i64),
    }
}

/// The sample lunar date of a solar month and day of the month: the lunar
/// year, month and day, and the three in one string.
///
/// This is a stand-in for a lunar calendar, not one: see
/// [`lunar_month_text`] and [`lunar_day_text`].
pub fn get_sample_lunar_info(month: u32, day: u32) -> (info: (String, String, String, String))
    ensures
        info.0@ == lunar_year_text(),
        info.1@ == lunar_month_text(month as int),
        info.2@ == lunar_day_text(day as int),
        info.3@ == lunar_year_text() + lunar_month_text(month as int) + lunar_day_text(day as int),
{
    let lunar_year = String::from_str("甲辰年");
    let lunar_month = if 1 <= month && month <= 3 {
        String::from_str("正月")
    } else if 4 <= month && month <= 6 {
        String::from_str("四月")
    } else if 7 <= month && month <= 9 {
        String::from_str("七月")
    } else {
        String::from_str("十月")
    };
    let lunar_day = if 1 <= day && day <= 10 {
        let mut text = String::from_str("初");
        let number = get_chinese_number(day as i32);
        text.append(number.as_str());
        text
    } else if 11 <= day && day <= 20 {
        let mut text = String::from_str("十");
        let number = get_chinese_number((day - 10) as i32);
        text.append(number.as_str());
        text
    } else if 21 <= day && day <= 31 {
        let mut text = String::from_str("廿");
        let number = get_chinese_number((day - 20) as i32);
        text.append(number.as_str());
        text
    } else {
        let mut text = decimal_string(day as i64);
        text.append("日");
        text
    };
    let mut full = String::from_str("甲辰年");
    full.append(lunar_month.as_str());
    full.append(lunar_day.as_str());
    (lunar_year, lunar_month, lunar_day, full)
}

/// The date info of a day whose solar date is written out in `solar_date`.
pub fn date_info_for(solar_date: String, weekday: Weekday, month: u32, day: u32) -> (info: DateInfo)
    ensures
        info.solar_date == solar_date,
        describes_day(info, weekday, month as int, day as int),
{
    let (lunar_year, lunar_month, lunar_day, lunar_date) = get_sample_lunar_info(month, day);
    DateInfo {
        solar_date,
        lunar_date,
        weekday: weekday_name(weekday),
        lunar_year,
        lunar_month,
        lunar_day,
    }
}

/// The date info of the current day, as the local clock of this machine
/// gives it. Whatever day that is, a day of a month of the year, the info
/// describes it.
pub fn get_current_date_info() -> (info: DateInfo)
    ensures
        exists|weekday: Weekday, month: u32, day: u32|
            {
                &&& 1 <= month <= 12
                &&& 1 <= day <= 31
                &&& #[trigger] describes_day(info, weekday, month as int, day as int)
            },
{
    let today = local_today("%Y年%m月%d日");
    date_info_for(today.solar_date, today.weekday, today.month, today.day)
}

} // verus!
