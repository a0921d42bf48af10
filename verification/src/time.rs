//! Wall-clock time conversion: unix milliseconds plus a timezone offset to civil local time.
//!
//! The calendar is the proleptic Gregorian one. The model below defines a civil date by the
//! number of days that separate it from 1970-01-01; the executable conversion uses the compact
//! era arithmetic and is proved to return the one valid date with the requested day number.
use vstd::prelude::*;
use vstd::arithmetic::div_mod::lemma_fundamental_div_mod_converse;

verus! {

/// A civil (calendar) local time produced by [`civil_from_unix_millis`].
#[derive(Clone, Copy, Debug, PartialEq, Eq, Structural)]
pub struct CivilDateTime {
    /// Year (proleptic Gregorian, can be negative for BC).
    pub year: i64,
    /// Month, 1-12.
    pub month: u32,
    /// Day of month, 1-31.
    pub day: u32,
    /// Hour, 0-23.
    pub hour: u32,
    /// Minute, 0-59.
    pub minute: u32,
    /// Second, 0-59.
    pub second: u32,
}

/// Gregorian leap-year rule.
pub open spec fn is_leap_year(year: int) -> bool {
    (year % 4 == 0 && year % 100 != 0) || year % 400 == 0
}

/// Number of days of `month` (1-12) in `year`.
pub open spec fn days_in_month(year: int, month: int) -> int {
    if month == 2 {
        if is_leap_year(year) {
            29
        } else {
            28
        }
    } else if month == 4 || month == 6 || month == 9 || month == 11 {
        30
    } else {
        31
    }
}

/// A month in 1-12 and a day that exists in that month.
pub open spec fn is_valid_date(year: int, month: int, day: int) -> bool {
    1 <= month <= 12 && 1 <= day <= days_in_month(year, month)
}

/// Number of leap years in `0..year` (negative when `year` is below 1).
pub open spec fn leap_years_before(year: int) -> int {
    (year - 1) / 4 - (year - 1) / 100 + (year - 1) / 400
}

/// Days from 1970-01-01 to January 1st of `year`.
pub open spec fn days_before_year(year: int) -> int {
    365 * (year - 1970) + leap_years_before(year) - leap_years_before(1970)
}

/// Days from January 1st of `year` to the first day of `month`.
pub open spec fn days_before_month(year: int, month: int) -> int
    decreases month,
{
    if month <= 1 {
        0
    } else {
        days_before_month(year, month - 1) + days_in_month(year, month - 1)
    }
}

/// Days from 1970-01-01 to the given civil date (negative before the epoch).
pub open spec fn days_from_civil(year: int, month: int, day: int) -> int {
    days_before_year(year) + days_before_month(year, month) + day - 1
}

/// Rust's `as i64` on a `u64`: values above `i64::MAX` wrap to negative ones.
pub open spec fn signed_millis(unix_millis: u64) -> int {
    if unix_millis <= i64::MAX {
        unix_millis as int
    } else {
        unix_millis - 0x1_0000_0000_0000_0000
    }
}

/// Integer division rounding toward zero (Rust's `/` on signed integers).
pub open spec fn div_toward_zero(a: int, b: int) -> int
    recommends
        b > 0,
{
    if a >= 0 {
        a / b
    } else {
        -((-a) / b)
    }
}

/// Local seconds since 1970-01-01T00:00:00 for a unix millisecond stamp and an offset.
pub open spec fn local_seconds(unix_millis: u64, timezone_offset_seconds: i32) -> int {
    div_toward_zero(signed_millis(unix_millis), 1000) + timezone_offset_seconds
}

/// The civil local time for a unix millisecond stamp and an offset: the valid date whose day
/// number is the floored day count, and the time of day of the remaining seconds.
pub open spec fn is_civil_time_of(
    time: CivilDateTime,
    unix_millis: u64,
    timezone_offset_seconds: i32,
) -> bool {
    let seconds = local_seconds(unix_millis, timezone_offset_seconds);
    let days = seconds / 86_400;
    let second_of_day = seconds % 86_400;
    &&& is_valid_date(time.year as int, time.month as int, time.day as int)
    &&& days_from_civil(time.year as int, time.month as int, time.day as int) == days
    &&& time.hour == second_of_day / 3_600
    &&& time.minute == (second_of_day % 3_600) / 60
    &&& time.second == second_of_day % 60
}

/// Day number of March 1st of the March-based year starting at `year`.
spec fn march_first(year: int) -> int {
    365 * year + year / 4 - year / 100 + year / 400 - 719_468
}

/// Days from the start of an era (March 1st of a year divisible by 400) to March 1st of the
/// `year_of_era`-th year of that era.
spec fn era_year_start(year_of_era: int) -> int {
    365 * year_of_era + year_of_era / 4 - year_of_era / 100 + year_of_era / 400
}

/// Days from March 1st to the first day of the `month_index`-th month counted from March.
spec fn march_month_start(month_index: int) -> int {
    (153 * month_index + 2) / 5
}

proof fn lemma_leap_step(year: int)
    ensures
        leap_years_before(year + 1) == leap_years_before(year) + (if is_leap_year(year) {
            1int
        } else {
            0int
        }),
{
}

/// Each year adds 365 days, plus one in a leap year.
pub proof fn lemma_days_before_next_year(year: int)
    ensures
        days_before_year(year + 1) == days_before_year(year) + 365 + (if is_leap_year(year) {
            1int
        } else {
            0int
        }),
{
    lemma_leap_step(year);
}

proof fn lemma_days_before_month_table(year: int)
    ensures
        days_before_month(year, 1) == 0,
        days_before_month(year, 2) == 31,
        days_before_month(year, 3) == 59 + (if is_leap_year(year) { 1int } else { 0int }),
        days_before_month(year, 4) == 90 + (if is_leap_year(year) { 1int } else { 0int }),
        days_before_month(year, 5) == 120 + (if is_leap_year(year) { 1int } else { 0int }),
        days_before_month(year, 6) == 151 + (if is_leap_year(year) { 1int } else { 0int }),
        days_before_month(year, 7) == 181 + (if is_leap_year(year) { 1int } else { 0int }),
        days_before_month(year, 8) == 212 + (if is_leap_year(year) { 1int } else { 0int }),
        days_before_month(year, 9) == 243 + (if is_leap_year(year) { 1int } else { 0int }),
        days_before_month(year, 10) == 273 + (if is_leap_year(year) { 1int } else { 0int }),
        days_before_month(year, 11) == 304 + (if is_leap_year(year) { 1int } else { 0int }),
        days_before_month(year, 12) == 334 + (if is_leap_year(year) { 1int } else { 0int }),
        days_before_month(year, 13) == 365 + (if is_leap_year(year) { 1int } else { 0int }),
{
    reveal_with_fuel(days_before_month, 14);
}

/// Each month starts after the previous ones have passed in full.
proof fn lemma_month_starts_increase(year: int, m1: int, m2: int)
    requires
        1 <= m1 < m2,
    ensures
        days_before_month(year, m1) + days_in_month(year, m1) <= days_before_month(year, m2),
    decreases m2,
{
    if m2 > m1 + 1 {
        lemma_month_starts_increase(year, m1, m2 - 1);
    }
}

/// Each year starts after the previous ones have passed in full.
proof fn lemma_year_starts_increase(y1: int, y2: int)
    requires
        y1 < y2,
    ensures
        days_before_year(y1 + 1) <= days_before_year(y2),
    decreases y2 - y1,
{
    if y2 > y1 + 1 {
        lemma_year_starts_increase(y1, y2 - 1);
        lemma_days_before_next_year(y2 - 1);
    }
}

/// A valid date falls within its year.
proof fn lemma_day_within_year(year: int, month: int, day: int)
    requires
        is_valid_date(year, month, day),
    ensures
        days_before_year(year) <= days_from_civil(year, month, day) < days_before_year(year + 1),
{
    lemma_days_before_month_table(year);
    lemma_days_before_next_year(year);
    lemma_month_starts_increase(year, month, 13);
    if month > 1 {
        lemma_month_starts_increase(year, 1, month);
    }
}

/// Distinct valid civil dates have distinct day numbers: the date a day number names is unique.
pub proof fn lemma_civil_date_unique(y1: int, m1: int, d1: int, y2: int, m2: int, d2: int)
    requires
        is_valid_date(y1, m1, d1),
        is_valid_date(y2, m2, d2),
        days_from_civil(y1, m1, d1) == days_from_civil(y2, m2, d2),
    ensures
        y1 == y2,
        m1 == m2,
        d1 == d2,
{
    lemma_day_within_year(y1, m1, d1);
    lemma_day_within_year(y2, m2, d2);
    if y1 < y2 {
        lemma_year_starts_increase(y1, y2);
    } else if y2 < y1 {
        lemma_year_starts_increase(y2, y1);
    } else if m1 < m2 {
        lemma_month_starts_increase(y1, m1, m2);
    } else if m2 < m1 {
        lemma_month_starts_increase(y1, m2, m1);
    }
}

proof fn lemma_march_first(year: int)
    ensures
        days_from_civil(year, 3, 1) == march_first(year),
        days_before_year(year + 1) == march_first(year) + 306,
{
    lemma_days_before_month_table(year);
    lemma_leap_step(year);
    lemma_days_before_next_year(year);
}

proof fn lemma_era_split(era: int, year_of_era: int)
    requires
        0 <= year_of_era < 400,
    ensures
        march_first(400 * era + year_of_era) == 146_097 * era + era_year_start(year_of_era)
            - 719_468,
        is_leap_year(400 * era + year_of_era + 1) <==> is_leap_year(year_of_era + 1),
{
    let y = 400 * era + year_of_era;
    lemma_fundamental_div_mod_converse(y, 4, 100 * era + year_of_era / 4, year_of_era % 4);
    lemma_fundamental_div_mod_converse(y, 100, 4 * era + year_of_era / 100, year_of_era % 100);
    lemma_fundamental_div_mod_converse(y, 400, era, year_of_era);
    let z = year_of_era + 1;
    lemma_fundamental_div_mod_converse(y + 1, 4, 100 * era + z / 4, z % 4);
    lemma_fundamental_div_mod_converse(y + 1, 100, 4 * era + z / 100, z % 100);
    lemma_fundamental_div_mod_converse(y + 1, 400, era + z / 400, z % 400);
}

#[verifier::rlimit(60)]
proof fn lemma_year_of_era(doe: u32)
    requires
        doe < 146_097,
    ensures
        ({
            let yoe = (doe - doe / 1460 + doe / 36_524 - doe / 146_096) / 365;
            &&& 0 <= yoe < 400
            &&& era_year_start(yoe) <= doe < era_year_start(yoe + 1)
        }),
{
    assert(doe < 146_097 ==> ({
        let yoe = (doe - doe / 1460 + doe / 36_524 - doe / 146_096) / 365;
        &&& yoe < 400
        &&& 365 * yoe + yoe / 4 - yoe / 100 + yoe / 400 <= doe
        &&& doe < 365 * (yoe + 1) + (yoe + 1) / 4 - (yoe + 1) / 100 + (yoe + 1) / 400
    })) by (bit_vector);
}

proof fn lemma_year_length(year_of_era: int)
    requires
        0 <= year_of_era < 400,
    ensures
        era_year_start(year_of_era + 1) - era_year_start(year_of_era) == 365 + (if is_leap_year(
            year_of_era + 1,
        ) {
            1int
        } else {
            0int
        }),
{
}

#[verifier::rlimit(60)]
proof fn lemma_month_of_year(doy: u32)
    requires
        doy < 366,
    ensures
        ({
            let mp = (5 * doy + 2) / 153;
            &&& 0 <= mp < 12
            &&& march_month_start(mp) <= doy
            &&& mp < 11 ==> doy < march_month_start(mp + 1)
        }),
{
    assert(doy < 366 ==> ({
        let mp = (5 * doy + 2) / 153;
        &&& mp < 12
        &&& (153 * mp + 2) / 5 <= doy
        &&& mp < 11 ==> doy < (153 * (mp + 1) + 2) / 5
    })) by (bit_vector);
}

proof fn lemma_march_month_table()
    ensures
        march_month_start(0) == 0,
        march_month_start(1) == 31,
        march_month_start(2) == 61,
        march_month_start(3) == 92,
        march_month_start(4) == 122,
        march_month_start(5) == 153,
        march_month_start(6) == 184,
        march_month_start(7) == 214,
        march_month_start(8) == 245,
        march_month_start(9) == 275,
        march_month_start(10) == 306,
        march_month_start(11) == 337,
{
}

/// The date at `day_of_year` days past March 1st of the March-based year `year`, as the civil
/// `(year, month, day)` triple (January and February belong to the following civil year).
spec fn date_in_march_year(year: int, day_of_year: int) -> (int, int, int) {
    let month_index = (5 * day_of_year + 2) / 153;
    let day = day_of_year - march_month_start(month_index) + 1;
    let month = if month_index < 10 {
        month_index + 3
    } else {
        month_index - 9
    };
    (if month <= 2 {
        year + 1
    } else {
        year
    }, month, day)
}

proof fn lemma_date_in_march_year(year: int, day_of_year: int)
    requires
        0 <= day_of_year < 365 + (if is_leap_year(year + 1) {
            1int
        } else {
            0int
        }),
    ensures
        ({
            let (y, m, d) = date_in_march_year(year, day_of_year);
            &&& is_valid_date(y, m, d)
            &&& days_from_civil(y, m, d) == march_first(year) + day_of_year
        }),
{
    lemma_month_of_year(day_of_year as u32);
    lemma_march_month_table();
    lemma_march_first(year);
    lemma_days_before_month_table(year);
    lemma_days_before_month_table(year + 1);
    let month_index = (5 * day_of_year + 2) / 153;
    assert(0 <= month_index < 12);
    if month_index == 11 {
        assert(day_of_year - 337 + 1 <= days_in_month(year + 1, 2));
    }
}

proof fn lemma_date_in_era(era: int, day_of_era: int)
    requires
        0 <= day_of_era < 146_097,
    ensures
        ({
            let year_of_era = (day_of_era - day_of_era / 1460 + day_of_era / 36_524 - day_of_era
                / 146_096) / 365;
            let day_of_year = day_of_era - era_year_start(year_of_era);
            let (y, m, d) = date_in_march_year(year_of_era + era * 400, day_of_year);
            &&& 0 <= year_of_era < 400
            &&& 0 <= day_of_year < 366
            &&& is_valid_date(y, m, d)
            &&& days_from_civil(y, m, d) == 146_097 * era + day_of_era - 719_468
        }),
{
    lemma_year_of_era(day_of_era as u32);
    let year_of_era = (day_of_era - day_of_era / 1460 + day_of_era / 36_524 - day_of_era
        / 146_096) / 365;
    lemma_year_length(year_of_era);
    lemma_era_split(era, year_of_era);
    let year = year_of_era + era * 400;
    assert(year == 400 * era + year_of_era);
    let day_of_year = day_of_era - era_year_start(year_of_era);
    lemma_date_in_march_year(year, day_of_year);
}

/// Inverse of the day count: days since 1970-01-01 to a civil date.
fn civil_from_days(z: i64) -> (date: (i64, u32, u32))
    requires
        -0x1000_0000_0000_0000 <= z <= 0x1000_0000_0000_0000,
    ensures
        is_valid_date(date.0 as int, date.1 as int, date.2 as int),
        days_from_civil(date.0 as int, date.1 as int, date.2 as int) == z,
{
    let shifted: i64 = z + 719_468;
    let era: i64 = if shifted >= 0 {
        shifted / 146_097
    } else {
        (shifted - 146_096) / 146_097
    };
    proof {
        let e = (shifted as int) / 146_097;
        let r = (shifted as int) % 146_097;
        lemma_fundamental_div_mod_converse(shifted as int, 146_097, e, r);
        if shifted < 0 {
            assert(era == e);
        }
    }
    let day_of_era: i64 = shifted - era * 146_097;
    proof {
        lemma_date_in_era(era as int, day_of_era as int);
    }
    let year_of_era: i64 = (day_of_era - day_of_era / 1_460 + day_of_era / 36_524 - day_of_era
        / 146_096) / 365;
    let year: i64 = year_of_era + era * 400;
    let day_of_year: i64 = day_of_era - (365 * year_of_era + year_of_era / 4 - year_of_era / 100);
    assert(day_of_year == day_of_era - era_year_start(year_of_era as int));
    let month_prime: i64 = (5 * day_of_year + 2) / 153;
    let day: i64 = day_of_year - (153 * month_prime + 2) / 5 + 1;
    let month: i64 = if month_prime < 10 {
        month_prime + 3
    } else {
        month_prime - 9
    };
    let year: i64 = if month <= 2 {
        year + 1
    } else {
        year
    };
    (year, month as u32, day as u32)
}

/// Converts a unix millisecond timestamp plus a timezone offset (seconds, DST-aware as reported
/// by the host) into a civil local time.
pub fn civil_from_unix_millis(unix_millis: u64, timezone_offset_seconds: i32) -> (time:
    CivilDateTime)
    ensures
        is_civil_time_of(time, unix_millis, timezone_offset_seconds),
{
    let signed: i64 = unix_millis as i64;
    assert(signed == signed_millis(unix_millis)) by (bit_vector)
        requires
            signed == unix_millis as i64,
    ;
    let total_seconds: i64 = signed / 1000 + timezone_offset_seconds as i64;
    assert(total_seconds == local_seconds(unix_millis, timezone_offset_seconds));
    let mut days: i64 = total_seconds / 86_400;
    let mut seconds_of_day: i64 = total_seconds - days * 86_400;
    if seconds_of_day < 0 {
        seconds_of_day = seconds_of_day + 86_400;
        days = days - 1;
    }
    assert(days == total_seconds / 86_400 && seconds_of_day == total_seconds % 86_400);
    let (year, month, day) = civil_from_days(days);
    CivilDateTime {
        year,
        month,
        day,
        hour: (seconds_of_day / 3_600) as u32,
        minute: ((seconds_of_day % 3_600) / 60) as u32,
        second: (seconds_of_day % 60) as u32,
    }
}

} // verus!
