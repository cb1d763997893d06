//! The proleptic Gregorian calendar, and the conversion of a day count since
//! 1970-01-01 into a civil date.

use vstd::prelude::*;
use vstd::arithmetic::div_mod::lemma_fundamental_div_mod_converse;

verus! {

/// Gregorian leap years: divisible by 4, except centuries not divisible by 400.
pub open spec fn is_leap_year(y: int) -> bool {
    (y % 4 == 0 && y % 100 != 0) || y % 400 == 0
}

pub open spec fn leap_day(y: int) -> int {
    if is_leap_year(y) { 1 } else { 0 }
}

/// Days in month `m` (1 = January) of year `y`.
pub open spec fn days_in_month(y: int, m: int) -> int {
    if m == 2 {
        28 + leap_day(y)
    } else if m == 4 || m == 6 || m == 9 || m == 11 {
        30
    } else {
        31
    }
}

/// Days of year `y` before the first of month `m`.
pub open spec fn days_before_month(y: int, m: int) -> int {
    let common = if m <= 1 { 0int }
        else if m == 2 { 31 }
        else if m == 3 { 59 }
        else if m == 4 { 90 }
        else if m == 5 { 120 }
        else if m == 6 { 151 }
        else if m == 7 { 181 }
        else if m == 8 { 212 }
        else if m == 9 { 243 }
        else if m == 10 { 273 }
        else if m == 11 { 304 }
        else { 334 };
    common + if m > 2 { leap_day(y) } else { 0 }
}

/// Leap years among the years 1 ..= y - 1.
pub open spec fn leap_years_before(y: int) -> int {
    (y - 1) / 4 - (y - 1) / 100 + (y - 1) / 400
}

/// Days from 1970-01-01 to the first of January of year `y`.
pub open spec fn days_before_year(y: int) -> int {
    365 * (y - 1970) + leap_years_before(y) - leap_years_before(1970)
}

/// Days from 1970-01-01 to the date `y-m-d`.
pub open spec fn days_from_civil(y: int, m: int, d: int) -> int {
    days_before_year(y) + days_before_month(y, m) + d - 1
}

/// `y-m-d` names a day of the calendar.
pub open spec fn is_valid_date(y: int, m: int, d: int) -> bool {
    1 <= m <= 12 && 1 <= d <= days_in_month(y, m)
}

/// The date of the day `days` after 1970-01-01 (from year 1 on, there is one).
pub open spec fn civil_date(days: int) -> (int, int, int) {
    choose|t: (int, int, int)| t.0 >= 1 && is_valid_date(t.0, t.1, t.2) && days_from_civil(t.0, t.1, t.2) == days
}

proof fn lemma_date_within_year(y: int, m: int, d: int)
    requires
        y >= 1,
        is_valid_date(y, m, d),
    ensures
        days_before_year(y) <= days_from_civil(y, m, d) < days_before_year(y + 1),
{
    law_year_length(y);
}

proof fn lemma_years_ordered(a: int, b: int)
    requires
        1 <= a < b,
    ensures
        days_before_year(a + 1) <= days_before_year(b),
    decreases b - a,
{
    if a + 1 < b {
        lemma_years_ordered(a, b - 1);
        law_year_length(b - 1);
    }
}

proof fn lemma_months_ordered(y: int, a: int, b: int)
    requires
        1 <= a < b <= 12,
    ensures
        days_before_month(y, a) + days_in_month(y, a) <= days_before_month(y, b),
{
}

/// Two dates from year 1 on that fall on the same day are the same date.
pub proof fn law_civil_date_unique(y1: int, m1: int, d1: int, y2: int, m2: int, d2: int)
    requires
        y1 >= 1,
        y2 >= 1,
        is_valid_date(y1, m1, d1),
        is_valid_date(y2, m2, d2),
        days_from_civil(y1, m1, d1) == days_from_civil(y2, m2, d2),
    ensures
        y1 == y2 && m1 == m2 && d1 == d2,
{
    lemma_date_within_year(y1, m1, d1);
    lemma_date_within_year(y2, m2, d2);
    if y1 < y2 {
        lemma_years_ordered(y1, y2);
    } else if y2 < y1 {
        lemma_years_ordered(y2, y1);
    } else {
        if m1 < m2 {
            lemma_months_ordered(y1, m1, m2);
        } else if m2 < m1 {
            lemma_months_ordered(y1, m2, m1);
        }
    }
}

proof fn lemma_civil_date_is(y: int, m: int, d: int)
    requires
        y >= 1,
        is_valid_date(y, m, d),
    ensures
        civil_date(days_from_civil(y, m, d)) == (y, m, d),
{
    let days = days_from_civil(y, m, d);
    assert((y, m, d).0 >= 1 && is_valid_date((y, m, d).0, (y, m, d).1, (y, m, d).2)
        && days_from_civil((y, m, d).0, (y, m, d).1, (y, m, d).2) == days);
    let t = civil_date(days);
    law_civil_date_unique(t.0, t.1, t.2, y, m, d);
}

proof fn div_is(x: int, d: int, q: int, r: int)
    requires
        d > 0,
        0 <= r < d,
        x == q * d + r,
    ensures
        x / d == q,
        x % d == r,
{
    lemma_fundamental_div_mod_converse(x, d, q, r);
}

proof fn div_parts(x: int, d: int)
    requires
        d > 0,
    ensures
        x == (x / d) * d + x % d,
        0 <= x % d < d,
{
    vstd::arithmetic::div_mod::lemma_fundamental_div_mod(x, d);
    vstd::arithmetic::div_mod::lemma_mod_bound(x, d);
    vstd::arithmetic::mul::lemma_mul_is_commutative(d, x / d);
}

/// Each year after 1 BC adds 365 days, plus one in a leap year.
pub proof fn law_year_length(y: int)
    requires
        y >= 1,
    ensures
        days_before_year(y + 1) == days_before_year(y) + 365 + leap_day(y),
{
    div_parts(y - 1, 4);
    div_parts(y - 1, 100);
    div_parts(y - 1, 400);
    let a = (y - 1) / 4;
    let b = (y - 1) / 100;
    let c = (y - 1) / 400;
    let ra = (y - 1) % 4;
    let rb = (y - 1) % 100;
    let rc = (y - 1) % 400;
    if ra == 3 { div_is(y, 4, a + 1, 0); } else { div_is(y, 4, a, ra + 1); }
    if rb == 99 { div_is(y, 100, b + 1, 0); } else { div_is(y, 100, b, rb + 1); }
    if rc == 399 { div_is(y, 400, c + 1, 0); } else { div_is(y, 400, c, rc + 1); }
}

/// Each month adds its length.
pub proof fn law_month_length(y: int, m: int)
    requires
        1 <= m < 12,
    ensures
        days_before_month(y, m + 1) == days_before_month(y, m) + days_in_month(y, m),
{
}

proof fn lemma_leap_shift(era: int, x: int)
    requires
        era >= 0,
    ensures
        is_leap_year(400 * era + x) == is_leap_year(x),
{
    div_parts(x, 4);
    div_parts(x, 100);
    div_parts(x, 400);
    div_is(400 * era + x, 4, 100 * era + x / 4, x % 4);
    div_is(400 * era + x, 100, 4 * era + x / 100, x % 100);
    div_is(400 * era + x, 400, era + x / 400, x % 400);
}

/// The year of era and its start, for a day of a 400-year era that begins on
/// the first of March.
proof fn lemma_year_of_era(doe: int)
    requires
        0 <= doe < 146097,
    ensures
        ({
            let yoe = (doe - doe / 1460 + doe / 36524 - doe / 146096) / 365;
            let start = 365 * yoe + yoe / 4 - yoe / 100;
            &&& 0 <= yoe <= 399
            &&& doe / 1460 <= doe
            &&& doe / 146096 <= doe - doe / 1460 + doe / 36524
            &&& yoe / 100 <= 365 * yoe + yoe / 4
            &&& start <= doe
            &&& doe - start < 365 + leap_day(yoe + 1)
        }),
{
    if doe == 146096 {
        div_is(146096, 1460, 100, 96);
        div_is(146096, 36524, 4, 0);
        div_is(146096, 146096, 1, 0);
        div_is(145999, 365, 399, 364);
        div_is(399, 4, 99, 3);
        div_is(399, 100, 3, 99);
        div_is(400, 4, 100, 0);
        div_is(400, 100, 4, 0);
        div_is(400, 400, 1, 0);
    } else {
        div_parts(doe, 36524);
        let c = doe / 36524;
        let r = doe % 36524;
        div_parts(r, 1461);
        let q = r / 1461;
        let s = r % 1461;
        assert(0 <= c <= 3) by (nonlinear_arith)
            requires doe == c * 36524 + r, 0 <= r < 36524, 0 <= doe < 146096;
        assert(0 <= q <= 24) by (nonlinear_arith)
            requires r == q * 1461 + s, 0 <= s < 1461, 0 <= r < 36524;
        assert(q == 24 ==> s <= 1459);
        let e: int = if 24 * c + q + s >= 1460 { 1 } else { 0 };
        div_is(doe, 1460, 25 * c + q + e, 24 * c + q + s - 1460 * e);
        div_is(doe, 36524, c, r);
        div_is(doe, 146096, 0, doe);
        let k: int = if s >= 1095 { 3 } else if s >= 730 { 2 } else if s >= 365 { 1 } else { 0 };
        let t = doe - doe / 1460 + doe / 36524 - doe / 146096;
        assert(t == 36500 * c + 1460 * q + s - e);
        div_is(t, 365, 100 * c + 4 * q + k, s - e - 365 * k);
        let yoe = 100 * c + 4 * q + k;
        div_is(yoe, 4, 25 * c + q, k);
        div_is(yoe, 100, c, 4 * q + k);
        if s - 365 * k == 365 {
            div_is(yoe + 1, 4, 25 * c + q + 1, 0);
            div_is(yoe + 1, 100, c, 4 * q + 4);
        }
    }
}

/// The March-based month of a day of a March-based year, and its start.
proof fn lemma_month_of_year(doy: int)
    requires
        0 <= doy <= 365,
    ensures
        ({
            let mp = (5 * doy + 2) / 153;
            let ms = (153 * mp + 2) / 5;
            &&& 0 <= mp <= 11
            &&& ms <= doy
            &&& mp == 0 ==> ms == 0 && doy - ms < 31
            &&& mp == 1 ==> ms == 31 && doy - ms < 30
            &&& mp == 2 ==> ms == 61 && doy - ms < 31
            &&& mp == 3 ==> ms == 92 && doy - ms < 30
            &&& mp == 4 ==> ms == 122 && doy - ms < 31
            &&& mp == 5 ==> ms == 153 && doy - ms < 31
            &&& mp == 6 ==> ms == 184 && doy - ms < 30
            &&& mp == 7 ==> ms == 214 && doy - ms < 31
            &&& mp == 8 ==> ms == 245 && doy - ms < 30
            &&& mp == 9 ==> ms == 275 && doy - ms < 31
            &&& mp == 10 ==> ms == 306 && doy - ms < 31
            &&& mp == 11 ==> ms == 337
        }),
{
    let x = 5 * doy + 2;
    let mp: int = if doy < 31 { 0 }
        else if doy < 61 { 1 }
        else if doy < 92 { 2 }
        else if doy < 122 { 3 }
        else if doy < 153 { 4 }
        else if doy < 184 { 5 }
        else if doy < 214 { 6 }
        else if doy < 245 { 7 }
        else if doy < 275 { 8 }
        else if doy < 306 { 9 }
        else if doy < 337 { 10 }
        else { 11 };
    div_is(x, 153, mp, x - 153 * mp);
    let ms: int = if mp == 0 { 0 }
        else if mp == 1 { 31 }
        else if mp == 2 { 61 }
        else if mp == 3 { 92 }
        else if mp == 4 { 122 }
        else if mp == 5 { 153 }
        else if mp == 6 { 184 }
        else if mp == 7 { 214 }
        else if mp == 8 { 245 }
        else if mp == 9 { 275 }
        else if mp == 10 { 306 }
        else { 337 };
    div_is(153 * mp + 2, 5, ms, 153 * mp + 2 - 5 * ms);
}

/// Counting from the first of March of year 0, the day a March-based date
/// falls on is the day the civil date falls on, counted from 1970-01-01.
proof fn lemma_march_count(era: int, yoe: int, mp: int, d: int)
    requires
        era >= 0,
        0 <= yoe <= 399,
        0 <= mp <= 11,
    ensures
        ({
            let m = if mp < 10 { mp + 3 } else { mp - 9 };
            let y = if m <= 2 { 400 * era + yoe + 1 } else { 400 * era + yoe };
            days_from_civil(y, m, d) + 719468 == 146097 * era + 365 * yoe + yoe / 4 - yoe / 100 + (153 * mp + 2) / 5 + d - 1
        }),
{
    let big_y = 400 * era + yoe;
    div_parts(yoe, 4);
    div_parts(yoe, 100);
    div_is(yoe, 400, 0, yoe);
    div_is(big_y, 4, 100 * era + yoe / 4, yoe % 4);
    div_is(big_y, 100, 4 * era + yoe / 100, yoe % 100);
    div_is(big_y, 400, era, yoe);
    div_is(1969, 4, 492, 1);
    div_is(1969, 100, 19, 69);
    div_is(1969, 400, 4, 369);
    assert(leap_years_before(big_y + 1) == 97 * era + yoe / 4 - yoe / 100);
    if mp < 10 {
        if big_y >= 1 {
            law_year_length(big_y);
        } else {
            div_is(-1, 4, -1, 3);
            div_is(-1, 100, -1, 99);
            div_is(-1, 400, -1, 399);
        }
        div_is(153 * mp + 2, 5, (153 * mp + 2) / 5, (153 * mp + 2) % 5);
        lemma_month_of_year_starts(mp);
    } else {
        lemma_month_of_year_starts(mp);
    }
}

proof fn lemma_month_of_year_starts(mp: int)
    requires
        0 <= mp <= 11,
    ensures
        ({
            let m = if mp < 10 { mp + 3 } else { mp - 9 };
            let ms = (153 * mp + 2) / 5;
            &&& mp < 10 ==> days_before_month(1, m) == ms + 59
            &&& mp >= 10 ==> days_before_month(1, m) + 365 == ms + 59
        }),
{
    let ms: int = if mp == 0 { 0 }
        else if mp == 1 { 31 }
        else if mp == 2 { 61 }
        else if mp == 3 { 92 }
        else if mp == 4 { 122 }
        else if mp == 5 { 153 }
        else if mp == 6 { 184 }
        else if mp == 7 { 214 }
        else if mp == 8 { 245 }
        else if mp == 9 { 275 }
        else if mp == 10 { 306 }
        else { 337 };
    div_is(153 * mp + 2, 5, ms, 153 * mp + 2 - 5 * ms);
}

} // verus!

verus! {

/// The civil date `(year, month, day)` of the day `days` days after
/// 1970-01-01 (Howard Hinnant's `civil_from_days`).
pub fn civil_from_days(days: u64) -> (res: (u64, u64, u64))
    requires
        days <= u64::MAX - 719_468,
    ensures
        res.0 >= 1,
        is_valid_date(res.0 as int, res.1 as int, res.2 as int),
        days_from_civil(res.0 as int, res.1 as int, res.2 as int) == days as int,
        (res.0 as int, res.1 as int, res.2 as int) == civil_date(days as int),
{
    let z = days + 719_468;
    let era = z / 146_097;
    proof {
        div_parts(z as int, 146_097);
        assert(era * 400 <= era * 146_097) by (nonlinear_arith) requires era >= 0;
    }
    let doe = z - era * 146_097;
    proof {
        lemma_year_of_era(doe as int);
    }
    let yoe = (doe - doe / 1_460 + doe / 36_524 - doe / 146_096) / 365;
    let y = yoe + era * 400;
    let doy = doe - (365 * yoe + yoe / 4 - yoe / 100);
    proof {
        lemma_month_of_year(doy as int);
    }
    let mp = (5 * doy + 2) / 153;
    let d = doy - (153 * mp + 2) / 5 + 1;
    let m = if mp < 10 { mp + 3 } else { mp - 9 };
    let y = if m <= 2 { y + 1 } else { y };
    proof {
        lemma_march_count(era as int, yoe as int, mp as int, d as int);
        lemma_leap_shift(era as int, yoe + 1);
        assert(400 * era + yoe + 1 == era * 400 + yoe + 1);
        assert(era >= 4);
        lemma_civil_date_is(y as int, m as int, d as int);
    }
    (y, m, d)
}

} // verus!
