//! Proleptic Gregorian calendar arithmetic for the generation timestamp in the
//! Markdown front matter.

use vstd::prelude::*;
use crate::text::{append_chars, padded_decimal, padded_i64, string_from_chars};

verus! {

/// Whether `y` is a leap year in the proleptic Gregorian calendar.
pub open spec fn is_leap_year(y: int) -> bool {
    y % 4 == 0 && (y % 100 != 0 || y % 400 == 0)
}

/// The number of days in month `m` (1 = January) of year `y`.
pub open spec fn days_in_month(y: int, m: int) -> int {
    if m == 2 {
        if is_leap_year(y) { 29 } else { 28 }
    } else if m == 4 || m == 6 || m == 9 || m == 11 {
        30
    } else {
        31
    }
}

/// The number of days in the months of year `y` before month `m`.
pub open spec fn days_before_month(y: int, m: int) -> int {
    let base: int = if m == 1 { 0 }
        else if m == 2 { 31 }
        else if m == 3 { 59 }
        else if m == 4 { 90 }
        else if m == 5 { 120 }
        else if m == 6 { 151 }
        else if m == 7 { 181 }
        else if m == 8 { 212 }
        else if m == 9 { 243 }
        else if m == 10 { 273 }
        else if m == 11 { 304 }
        else { 334 };
    if m > 2 && is_leap_year(y) { base + 1 } else { base }
}

/// The number of leap years before year `y`, counted from year 1.
pub open spec fn leap_years_before(y: int) -> int {
    (y - 1) / 4 - (y - 1) / 100 + (y - 1) / 400
}

/// Days from 1970-01-01 to January 1 of year `y` (negative before 1970).
pub open spec fn days_before_year(y: int) -> int {
    365 * (y - 1970) + leap_years_before(y) - leap_years_before(1970)
}

/// Days from 1970-01-01 to the date `y`-`m`-`d`.
pub open spec fn days_from_civil(y: int, m: int, d: int) -> int {
    days_before_year(y) + days_before_month(y, m) + d - 1
}

/// Whether `y`-`m`-`d` is a date of the calendar.
pub open spec fn is_valid_date(y: int, m: int, d: int) -> bool {
    1 <= m <= 12 && 1 <= d <= days_in_month(y, m)
}


/// Days from March 1 of year 0 of a 400-year era to March 1 of its year `yoe`.
spec fn era_year_start(yoe: int) -> int {
    365 * yoe + yoe / 4 - yoe / 100
}

/// Within a 400-year era that starts on March 1, day `doe` falls in year
/// `yoe` (of the era, counted from March) on day `doy` of that year; a 366th
/// day only happens in a year whose following February has 29 days.
proof fn lemma_year_of_era(doe: int)
    requires
        0 <= doe <= 146096,
    ensures
        ({
            let yoe = (doe - doe / 1460 + doe / 36524 - doe / 146096) / 365;
            let doy = doe - era_year_start(yoe);
            &&& 0 <= yoe <= 399
            &&& 0 <= doy <= 365
            &&& doy == 365 ==> (yoe + 1) % 4 == 0 && ((yoe + 1) % 100 != 0 || yoe + 1 == 400)
        }),
{
    if doe < 146096 {
        let cent = doe / 36524;
        let r = doe % 36524;
        assert(0 <= cent <= 3);
        let f = r / 1461;
        let g = r % 1461;
        assert(0 <= f <= 24);
        assert(f == 24 ==> g <= 1459);
        assert(doe == 36524 * cent + 1461 * f + g);
        let delta: int = if 24 * cent + f + g >= 1460 { 1 } else { 0 };
        assert(doe / 1460 == 25 * cent + f + delta);
        let yr: int = if g >= 1460 { 3 } else { g / 365 };
        let t = doe - doe / 1460 + doe / 36524 - doe / 146096;
        assert(t == 36500 * cent + 1460 * f + g - delta);
        assert((g - delta) / 365 == yr);
        let yoe = t / 365;
        assert(yoe == 100 * cent + 4 * f + yr);
        assert(yoe / 4 == 25 * cent + f);
        assert(yoe / 100 == cent);
        assert(doe - era_year_start(yoe) == g - 365 * yr);
    }
}


/// Days from March 1 to the first day of the March-based month `mp`
/// (0 = March, ..., 10 = January, 11 = February).
spec fn month_start(mp: int) -> int {
    (153 * mp + 2) / 5
}

/// Day `doy` of a March-based year lies in month `mp = (5 * doy + 2) / 153`,
/// whose days start at `month_start(mp)`.
proof fn lemma_month_of_year(doy: int)
    requires
        0 <= doy <= 365,
    ensures
        ({
            let mp = (5 * doy + 2) / 153;
            &&& 0 <= mp <= 11
            &&& month_start(mp) <= doy
            &&& mp < 11 ==> doy < month_start(mp + 1)
            &&& mp == 11 ==> doy <= 365
        }),
{
    let mp = (5 * doy + 2) / 153;
    assert(0 <= mp <= 11);
    assert(month_start(0) == 0);
    assert(month_start(1) == 31);
    assert(month_start(2) == 61);
    assert(month_start(3) == 92);
    assert(month_start(4) == 122);
    assert(month_start(5) == 153);
    assert(month_start(6) == 184);
    assert(month_start(7) == 214);
    assert(month_start(8) == 245);
    assert(month_start(9) == 275);
    assert(month_start(10) == 306);
    assert(month_start(11) == 337);
    assert(month_start(12) == 367);
}

proof fn lemma_div4_step(y: int)
    ensures
        y / 4 == (y - 1) / 4 + if y % 4 == 0 { 1int } else { 0 },
{
}

proof fn lemma_div100_step(y: int)
    ensures
        y / 100 == (y - 1) / 100 + if y % 100 == 0 { 1int } else { 0 },
        y % 100 == 0 ==> y % 4 == 0,
{
}

proof fn lemma_div400_step(y: int)
    ensures
        y / 400 == (y - 1) / 400 + if y % 400 == 0 { 1int } else { 0 },
        y % 400 == 0 ==> y % 100 == 0,
{
}

/// The leap years before `y + 1` are those before `y`, plus `y` itself when it is one.
proof fn lemma_leap_years_step(y: int)
    ensures
        leap_years_before(y + 1) == leap_years_before(y) + if is_leap_year(y) { 1int } else { 0 },
{
    lemma_div4_step(y);
    lemma_div100_step(y);
    lemma_div400_step(y);
}

/// March 1 of year `400 * era + yoe` is day `146097 * era + era_year_start(yoe) - 719468`
/// counted from 1970-01-01, and the next January 1 is 306 days later.
proof fn lemma_march_first(era: int, yoe: int)
    requires
        0 <= yoe <= 399,
    ensures
        days_from_civil(400 * era + yoe, 3, 1) == 146097 * era + era_year_start(yoe) - 719468,
        days_before_year(400 * era + yoe + 1) == days_from_civil(400 * era + yoe, 3, 1) + 306,
{
    let y = 400 * era + yoe;
    lemma_leap_years_step(y);
    assert(leap_years_before(1970) == 477);
    assert(leap_years_before(y + 1) == y / 4 - y / 100 + y / 400);
    assert(y / 4 == 100 * era + yoe / 4);
    assert(y / 100 == 4 * era + yoe / 100);
    assert(y / 400 == era);
    assert(days_before_month(y, 3) == 59 + if is_leap_year(y) { 1int } else { 0 });
}


/// The March-based months March to December are the calendar months 3 to 12
/// of the same year, laid out after March 1 as `month_start` says.
proof fn lemma_spring_to_winter_months(y: int, mp: int)
    requires
        0 <= mp < 10,
    ensures
        days_before_month(y, mp + 3) == days_before_month(y, 3) + month_start(mp),
        month_start(mp + 1) - month_start(mp) == days_in_month(y, mp + 3),
{
    assert(month_start(0) == 0);
    assert(month_start(1) == 31);
    assert(month_start(2) == 61);
    assert(month_start(3) == 92);
    assert(month_start(4) == 122);
    assert(month_start(5) == 153);
    assert(month_start(6) == 184);
    assert(month_start(7) == 214);
    assert(month_start(8) == 245);
    assert(month_start(9) == 275);
    assert(month_start(10) == 306);
}

/// Day `doy` of the March-based year `y` (March 1 being day 0) as a calendar
/// date: the date is valid, and it lies `doy` days after March 1 of `y`.
#[verifier::rlimit(30)]
proof fn lemma_date_of_march_year(y: int, doy: int)
    requires
        0 <= doy <= 365,
        doy == 365 ==> is_leap_year(y + 1),
    ensures
        ({
            let mp = (5 * doy + 2) / 153;
            let d = doy - month_start(mp) + 1;
            let m = if mp < 10 { mp + 3 } else { mp - 9 };
            let cy = if m <= 2 { y + 1 } else { y };
            &&& is_valid_date(cy, m, d)
            &&& days_from_civil(cy, m, d) == days_from_civil(y, 3, 1) + doy
        }),
{
    lemma_month_of_year(doy);
    lemma_year_length(y);
    let mp = (5 * doy + 2) / 153;
    let d = doy - month_start(mp) + 1;
    if mp < 10 {
        lemma_spring_to_winter_months(y, mp);
    } else if mp == 10 {
        assert(month_start(10) == 306 && month_start(11) == 337);
        assert(days_from_civil(y + 1, 1, d) == days_before_year(y + 1) + d - 1);
    } else {
        assert(month_start(11) == 337);
        assert(days_from_civil(y + 1, 2, d) == days_before_year(y + 1) + 31 + d - 1);
    }
}

/// The year after the last day of a 366-day era year is a leap year.
proof fn lemma_era_leap(era: int, yoe: int)
    requires
        (yoe + 1) % 4 == 0 && ((yoe + 1) % 100 != 0 || yoe + 1 == 400),
    ensures
        is_leap_year(400 * era + yoe + 1),
{
}

/// Convert a day count since the Unix epoch (1970-01-01) into a
/// (year, month, day) civil date of the proleptic Gregorian calendar.
pub fn civil_from_days(z: i64) -> (r: (i64, u32, u32))
    requires
        z <= i64::MAX - 719_468,
    ensures
        is_valid_date(r.0 as int, r.1 as int, r.2 as int),
        days_from_civil(r.0 as int, r.1 as int, r.2 as int) == z,
{
    let z = z + 719_468;
    let era = if z >= 0 {
        z
    } else {
        z - 146_096
    } / 146_097;
    assert(146_097 * era <= z <= 146_097 * era + 146_096);
    let doe = (z - era * 146_097) as u64;
    let yoe = (doe - doe / 1460 + doe / 36524 - doe / 146096) / 365;
    proof {
        lemma_year_of_era(doe as int);
    }
    let y = yoe as i64 + era * 400;
    let doy = doe - (365 * yoe + yoe / 4 - yoe / 100);
    let mp = (5 * doy + 2) / 153;
    let d = (doy - (153 * mp + 2) / 5 + 1) as u32;
    let m = if mp < 10 {
        mp + 3
    } else {
        mp - 9
    } as u32;
    let y = if m <= 2 {
        y + 1
    } else {
        y
    };
    proof {
        if doy == 365 {
            lemma_era_leap(era as int, yoe as int);
        }
        lemma_date_of_march_year(400 * era + yoe, doy as int);
        lemma_march_first(era as int, yoe as int);
    }
    (y, m, d)
}


/// A year of `y` has `365` days, or `366` in a leap year.
proof fn lemma_year_length(y: int)
    ensures
        days_before_year(y + 1) == days_before_year(y) + if is_leap_year(y) { 366int } else { 365 },
{
    lemma_leap_years_step(y);
}

/// January 1 of a later year comes at least a year later.
proof fn lemma_years_increase(a: int, b: int)
    requires
        a < b,
    ensures
        days_before_year(a + 1) <= days_before_year(b),
    decreases b - a,
{
    if b > a + 1 {
        lemma_years_increase(a, b - 1);
        lemma_year_length(b - 1);
    }
}

/// A valid date of year `y` lies within that year.
proof fn lemma_date_within_year(y: int, m: int, d: int)
    requires
        is_valid_date(y, m, d),
    ensures
        days_before_year(y) <= days_from_civil(y, m, d) < days_before_year(y + 1),
{
    lemma_year_length(y);
}

/// Distinct valid dates have distinct day numbers.
pub proof fn lemma_days_from_civil_injective(y1: int, m1: int, d1: int, y2: int, m2: int, d2: int)
    requires
        is_valid_date(y1, m1, d1),
        is_valid_date(y2, m2, d2),
        days_from_civil(y1, m1, d1) == days_from_civil(y2, m2, d2),
    ensures
        y1 == y2 && m1 == m2 && d1 == d2,
{
    lemma_date_within_year(y1, m1, d1);
    lemma_date_within_year(y2, m2, d2);
    if y1 < y2 {
        lemma_years_increase(y1, y2);
    } else if y2 < y1 {
        lemma_years_increase(y2, y1);
    }
    assert(y1 == y2);
}

/// The calendar date of day `days` counted from 1970-01-01.
pub open spec fn civil_date(days: int) -> (int, int, int) {
    choose|date: (int, int, int)|
        is_valid_date(date.0, date.1, date.2) && days_from_civil(date.0, date.1, date.2) == days
}

/// A valid date with day number `days` is `civil_date(days)`.
pub proof fn lemma_civil_date(days: int, y: int, m: int, d: int)
    requires
        is_valid_date(y, m, d),
        days_from_civil(y, m, d) == days,
    ensures
        civil_date(days) == (y, m, d),
{
    assert(exists|date: (int, int, int)|
        is_valid_date(date.0, date.1, date.2) && days_from_civil(date.0, date.1, date.2) == days)
        by {
        let w = (y, m, d);
        assert(is_valid_date(w.0, w.1, w.2) && days_from_civil(w.0, w.1, w.2) == days);
    }
    let date = civil_date(days);
    lemma_days_from_civil_injective(date.0, date.1, date.2, y, m, d);
}


/// The timestamp `YYYY-MM-DDTHH:MM:SSZ` (UTC) for `secs` seconds after the
/// Unix epoch, where the seconds are taken as a signed 64-bit count.
pub open spec fn utc_timestamp(secs: u64) -> Seq<char> {
    let t = (secs as i64) as int;
    let days = t / 86400;
    let sod = t % 86400;
    let date = civil_date(days);
    padded_decimal(date.0, 4) + seq!['-'] + padded_decimal(date.1, 2) + seq!['-']
        + padded_decimal(date.2, 2) + seq!['T'] + padded_decimal(sod / 3600, 2) + seq![':']
        + padded_decimal((sod % 3600) / 60, 2) + seq![':'] + padded_decimal(sod % 60, 2) + seq![
        'Z',
    ]
}

/// Format a time, given as whole seconds since the Unix epoch, as an
/// ISO-8601 UTC timestamp (`YYYY-MM-DDTHH:MM:SSZ`).
pub fn format_utc_timestamp(secs: u64) -> (stamp: String)
    ensures
        stamp@ == utc_timestamp(secs),
{
    let total_secs = secs as i64;
    let mut days = total_secs / 86_400;
    let mut secs_of_day = total_secs % 86_400;
    if secs_of_day < 0 {
        days = days - 1;
        secs_of_day = secs_of_day + 86_400;
    }
    assert(days == total_secs as int / 86400 && secs_of_day == total_secs as int % 86400);
    let (year, month, day) = civil_from_days(days);
    proof {
        lemma_civil_date(days as int, year as int, month as int, day as int);
    }
    let hour = secs_of_day / 3600;
    let minute = (secs_of_day % 3600) / 60;
    let second = secs_of_day % 60;
    let mut out = padded_i64(year, 4);
    out.push('-');
    append_chars(&mut out, &padded_i64(month as i64, 2));
    out.push('-');
    append_chars(&mut out, &padded_i64(day as i64, 2));
    out.push('T');
    append_chars(&mut out, &padded_i64(hour, 2));
    out.push(':');
    append_chars(&mut out, &padded_i64(minute, 2));
    out.push(':');
    append_chars(&mut out, &padded_i64(second, 2));
    out.push('Z');
    string_from_chars(&out)
}

} // verus!
