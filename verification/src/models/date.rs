use vstd::prelude::*;

verus! {

/// One day, written out for display in the solar and in the lunar calendar.
#[derive(Clone, Debug)]
pub struct DateInfo {
    /// Solar date, as in `2024年08月28日`.
    pub solar_date: String,
    /// Lunar date: year, month and day in one string.
    pub lunar_date: String,
    /// Day of the week, as in `星期三`.
    pub weekday: String,
    /// Lunar year, as in `甲辰年`.
    pub lunar_year: String,
    /// Lunar month, as in `七月`.
    pub lunar_month: String,
    /// Lunar day of the month, as in `廿五`.
    pub lunar_day: String,
}

} // verus!
