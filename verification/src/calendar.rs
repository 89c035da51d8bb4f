//! Calendar arithmetic for the date picker.

use vstd::prelude::*;

verus! {

/// The earliest year a calendar date can have (the proleptic Gregorian
/// range of `chrono::NaiveDate`).
pub const MIN_CALENDAR_YEAR: i32 = -262143;

/// The latest year a calendar date can have.
pub const MAX_CALENDAR_YEAR: i32 = 262142;

/// Whether `year` is a leap year of the proleptic Gregorian calendar.
pub open spec fn is_leap_year(year: int) -> bool {
    year % 4 == 0 && (year % 100 != 0 || year % 400 == 0)
}

/// The number of days of `month` (1 to 12) in `year`.
pub open spec fn month_length(year: int, month: int) -> int {
    if month == 2 {
        if is_leap_year(year) {
            29
        } else {
            28
        }
    } else if month == 4 || month == 6 || month == 9 || month == 11 {
        30
    } else {
        31
    }
}

/// What the date picker offers as the last day: the length of the month
/// for a real month of a representable year, 31 otherwise.
pub open spec fn picker_days_in_month(year: int, month: int) -> int {
    if 1 <= month <= 12 && MIN_CALENDAR_YEAR <= year <= MAX_CALENDAR_YEAR {
        month_length(year, month)
    } else {
        31
    }
}

/// Whether `year` (within the calendar range) is a leap year.
pub fn is_leap(year: i32) -> (b: bool)
    requires
        MIN_CALENDAR_YEAR <= year <= MAX_CALENDAR_YEAR,
    ensures
        b == is_leap_year(year as int),
{
    // Shift by a multiple of 400 so that the remainders are taken of a
    // non-negative number; the leap rule repeats every 400 years.
    let shifted: u32 = (year + 262400) as u32;
    assert(shifted as int == year + 656 * 400);
    assert(shifted % 4 == (year as int) % 4) by (nonlinear_arith)
        requires shifted as int == year + 656 * 400;
    assert(shifted % 100 == (year as int) % 100) by (nonlinear_arith)
        requires shifted as int == year + 656 * 400;
    assert(shifted % 400 == (year as int) % 400) by (nonlinear_arith)
        requires shifted as int == year + 656 * 400;
    shifted % 4 == 0 && (shifted % 100 != 0 || shifted % 400 == 0)
}

/// The number of days the date picker allows in `month` of `year`: the
/// day before the first of the next month, or 31 when there is no such
/// calendar date.
pub fn days_in_month(year: i32, month: u32) -> (days: u32)
    requires
        month < u32::MAX,
        month != 12 || year < i32::MAX,
    ensures
        days == picker_days_in_month(year as int, month as int),
{
    if month < 1 || month > 12 || year < MIN_CALENDAR_YEAR || year > MAX_CALENDAR_YEAR {
        return 31;
    }
    if month == 2 {
        if is_leap(year) {
            29
        } else {
            28
        }
    } else if month == 4 || month == 6 || month == 9 || month == 11 {
        30
    } else {
        31
    }
}

/// The picked day brought into the days the month offers.
pub open spec fn clamped_day(day: int, year: int, month: int) -> int {
    if day < 1 {
        1
    } else if day > picker_days_in_month(year, month) {
        picker_days_in_month(year, month)
    } else {
        day
    }
}

/// The picked day, clamped to the days the date picker offers for the
/// picked month.
pub fn clamp_picker_day(day: u32, year: i32, month: u32) -> (d: u32)
    requires
        month < u32::MAX,
        month != 12 || year < i32::MAX,
    ensures
        d == clamped_day(day as int, year as int, month as int),
{
    let max_day = days_in_month(year, month);
    if day < 1 {
        1
    } else if day > max_day {
        max_day
    } else {
        day
    }
}

/// After clamping, the picked year, month and day name a real calendar
/// date whenever the month is a real month of a representable year.
pub proof fn lemma_clamped_day_is_real_date(day: int, year: int, month: int)
    requires
        1 <= month <= 12,
        MIN_CALENDAR_YEAR <= year <= MAX_CALENDAR_YEAR,
    ensures
        1 <= clamped_day(day, year, month) <= month_length(year, month),
{
}

/// Every month the picker offers has between 28 and 31 days.
pub proof fn lemma_days_in_month_range(year: int, month: int)
    ensures
        28 <= picker_days_in_month(year, month) <= 31,
{
}

/// February has 29 days exactly in leap years; the other months do not
/// depend on the year.
pub proof fn lemma_february_follows_leap_rule(year: int, other: int, month: int)
    requires
        MIN_CALENDAR_YEAR <= year <= MAX_CALENDAR_YEAR,
        MIN_CALENDAR_YEAR <= other <= MAX_CALENDAR_YEAR,
        1 <= month <= 12,
        month != 2,
    ensures
        picker_days_in_month(year, 2) == 29 <==> is_leap_year(year),
        picker_days_in_month(year, month) == picker_days_in_month(other, month),
{
}

/// The calendar repeats every 400 years.
pub proof fn lemma_calendar_period(year: int, month: int)
    requires
        MIN_CALENDAR_YEAR <= year,
        year + 400 <= MAX_CALENDAR_YEAR,
    ensures
        picker_days_in_month(year, month) == picker_days_in_month(year + 400, month),
{
    assert((year + 400) % 4 == year % 4) by (nonlinear_arith);
    assert((year + 400) % 100 == year % 100) by (nonlinear_arith);
    assert((year + 400) % 400 == year % 400) by (nonlinear_arith);
}

} // verus!
