use chrono::Datelike;
use deskhive::system::date_info::{
    date_info_for, get_chinese_number, get_current_date_info, get_sample_lunar_info, weekday_name,
    Weekday,
};
use deskhive::utils::text::{decimal_string, digits_string, same_text};

#[test]
fn numbers_up_to_ten_have_numerals() {
    let numerals = ["一", "二", "三", "四", "五", "六", "七", "八", "九", "十"];
    for (i, numeral) in numerals.iter().enumerate() {
        assert_eq!(get_chinese_number(i as i32 + 1), *numeral);
    }
}

#[test]
fn other_numbers_are_written_in_decimal() {
    assert_eq!(get_chinese_number(0), "0");
    assert_eq!(get_chinese_number(11), "11");
    assert_eq!(get_chinese_number(-3), "-3");
    assert_eq!(get_chinese_number(i32::MAX), "2147483647");
    assert_eq!(get_chinese_number(i32::MIN), "-2147483648");
}

#[test]
fn sample_lunar_info_of_a_day() {
    let (year, month, day, full) = get_sample_lunar_info(8, 28);
    assert_eq!(year, "甲辰年");
    assert_eq!(month, "七月");
    assert_eq!(day, "廿八");
    assert_eq!(full, "甲辰年七月廿八");
}

#[test]
fn sample_lunar_month_is_the_first_of_its_quarter() {
    let expected = [
        "正月", "正月", "正月", "四月", "四月", "四月", "七月", "七月", "七月", "十月", "十月",
        "十月",
    ];
    for (i, name) in expected.iter().enumerate() {
        assert_eq!(get_sample_lunar_info(i as u32 + 1, 1).1, *name);
    }
    assert_eq!(get_sample_lunar_info(0, 1).1, "十月");
    assert_eq!(get_sample_lunar_info(13, 1).1, "十月");
}

#[test]
fn sample_lunar_day_by_decade() {
    assert_eq!(get_sample_lunar_info(1, 1).2, "初一");
    assert_eq!(get_sample_lunar_info(1, 10).2, "初十");
    assert_eq!(get_sample_lunar_info(1, 11).2, "十一");
    assert_eq!(get_sample_lunar_info(1, 20).2, "十十");
    assert_eq!(get_sample_lunar_info(1, 21).2, "廿一");
    assert_eq!(get_sample_lunar_info(1, 30).2, "廿十");
    assert_eq!(get_sample_lunar_info(1, 31).2, "廿11");
    assert_eq!(get_sample_lunar_info(1, 0).2, "0日");
    assert_eq!(get_sample_lunar_info(1, 32).2, "32日");
    assert_eq!(get_sample_lunar_info(1, u32::MAX).2, "4294967295日");
    assert_eq!(get_sample_lunar_info(12, 31).3, "甲辰年十月廿11");
}

#[test]
fn weekdays_have_names() {
    assert_eq!(weekday_name(Weekday::Mon), "星期一");
    assert_eq!(weekday_name(Weekday::Tue), "星期二");
    assert_eq!(weekday_name(Weekday::Wed), "星期三");
    assert_eq!(weekday_name(Weekday::Thu), "星期四");
    assert_eq!(weekday_name(Weekday::Fri), "星期五");
    assert_eq!(weekday_name(Weekday::Sat), "星期六");
    assert_eq!(weekday_name(Weekday::Sun), "星期日");
}

#[test]
fn date_info_of_a_given_day() {
    let info = date_info_for("2024年08月28日".to_string(), Weekday::Wed, 8, 28);
    assert_eq!(info.solar_date, "2024年08月28日");
    assert_eq!(info.weekday, "星期三");
    assert_eq!(info.lunar_year, "甲辰年");
    assert_eq!(info.lunar_month, "七月");
    assert_eq!(info.lunar_day, "廿八");
    assert_eq!(info.lunar_date, "甲辰年七月廿八");
}

#[test]
fn date_info_of_today_follows_the_local_clock() {
    let before = chrono::Local::now();
    let info = get_current_date_info();
    let after = chrono::Local::now();
    let matches_day = |day: &chrono::DateTime<chrono::Local>| {
        let expected = date_info_for(
            day.format("%Y年%m月%d日").to_string(),
            [
                Weekday::Mon,
                Weekday::Tue,
                Weekday::Wed,
                Weekday::Thu,
                Weekday::Fri,
                Weekday::Sat,
                Weekday::Sun,
            ][day.weekday().num_days_from_monday() as usize],
            day.month(),
            day.day(),
        );
        info.solar_date == expected.solar_date
            && info.weekday == expected.weekday
            && info.lunar_date == expected.lunar_date
            && info.lunar_year == expected.lunar_year
            && info.lunar_month == expected.lunar_month
            && info.lunar_day == expected.lunar_day
    };
    assert!(matches_day(&before) || matches_day(&after));
    assert_eq!(info.solar_date.chars().count(), 11);
}

#[test]
fn integers_in_decimal() {
    assert_eq!(decimal_string(0), "0");
    assert_eq!(decimal_string(7), "7");
    assert_eq!(decimal_string(10), "10");
    assert_eq!(decimal_string(1234567890), "1234567890");
    assert_eq!(decimal_string(-1), "-1");
    assert_eq!(decimal_string(-120), "-120");
    assert_eq!(decimal_string(i64::MAX), "9223372036854775807");
    assert_eq!(decimal_string(i64::MIN), "-9223372036854775808");
    assert_eq!(digits_string(u64::MAX), "18446744073709551615");
    assert_eq!(digits_string(9), "9");
    assert_eq!(digits_string(100), "100");
}

#[test]
fn texts_are_compared_by_their_characters() {
    assert!(same_text("", ""));
    assert!(same_text("截止", "截止"));
    assert!(!same_text("a", "A"));
    assert!(!same_text("a", "ab"));
}
