//! Wall-clock time: the system clock read as an offset from the Unix epoch.
//!
//! Each reading of the clock is an outside call; what follows from a reading
//! is computed by the verified functions that take it as an argument.

use std::time::SystemTime;
use vstd::prelude::*;
use crate::outside::{duration_as_nanos, duration_nanos, since_unix_epoch, system_time_now, unix_offset};
use crate::text::{
    decimal_value, four_digit_string, lemma_decimal_len, lemma_zero_padded_reads_back,
    three_digit_string, two_digit_string, zero_padded,
};
use crate::timing::{NANOS_PER_MILLI, NANOS_PER_SEC};

verus! {

/// Nanoseconds from the Unix epoch to the clock reading `t`, kept to the low
/// 64 bits; zero for a reading before the epoch.
pub open spec fn epoch_nanos(t: SystemTime) -> u64 {
    match unix_offset(t) {
        Some(d) => (duration_nanos(d) % 0x1_0000_0000_0000_0000) as u64,
        None => 0,
    }
}

/// Whether `y` is a leap year of the Gregorian calendar.
pub open spec fn is_leap_year(y: nat) -> bool {
    y % 4 == 0 && (y % 100 != 0 || y % 400 == 0)
}

/// The days of year `y`.
pub open spec fn days_in_year(y: nat) -> nat {
    if is_leap_year(y) {
        366
    } else {
        365
    }
}

/// The days of month `m` (1 to 12) of year `y`.
pub open spec fn days_in_month(y: nat, m: nat) -> nat {
    if m == 2 {
        if is_leap_year(y) {
            29
        } else {
            28
        }
    } else if m == 4 || m == 6 || m == 9 || m == 11 {
        30
    } else {
        31
    }
}

/// The year, and the day within it counted from zero, that lies `days`
/// days after the first of January of year `y`.
pub open spec fn year_and_day(days: nat, y: nat) -> (nat, nat)
    decreases days,
{
    if days < days_in_year(y) {
        (y, days)
    } else {
        year_and_day((days - days_in_year(y)) as nat, y + 1)
    }
}

/// The month (from `m` on), and the day within it counted from zero, of
/// day `doy` of year `y` counted from the first day of month `m`.
pub open spec fn month_and_day(doy: nat, y: nat, m: nat) -> (nat, nat)
    decreases 12 - m,
{
    if m >= 12 || doy < days_in_month(y, m) {
        (m, doy)
    } else {
        month_and_day((doy - days_in_month(y, m)) as nat, y, m + 1)
    }
}

/// The calendar date, as year, month (1 to 12) and day of the month (1 to
/// 31), that lies `days` days after 1970-01-01.
pub open spec fn civil_date(days: nat) -> (nat, nat, nat) {
    let (y, doy) = year_and_day(days, 1970);
    let (m, d) = month_and_day(doy, y, 1);
    (y, m, d + 1)
}

/// The ISO 8601 text of a count of milliseconds since the Unix epoch, in
/// UTC: `YYYY-MM-DDTHH:MM:SS.mmmZ`.
pub open spec fn iso8601_text(millis: u64) -> Seq<char> {
    let secs = millis / 1000;
    let ms = millis % 1000;
    let (y, m, d) = civil_date((secs / 86400) as nat);
    zero_padded(y, 4) + "-"@ + zero_padded(m, 2) + "-"@ + zero_padded(d, 2) + "T"@ + zero_padded(
        ((secs % 86400) / 3600) as nat,
        2,
    ) + ":"@ + zero_padded(((secs % 3600) / 60) as nat, 2) + ":"@ + zero_padded(
        (secs % 60) as nat,
        2,
    ) + "."@ + zero_padded(ms as nat, 3) + "Z"@
}

/// The days of year `y` from the first of month `m` to its end.
spec fn days_from_month(y: nat, m: nat) -> nat
    decreases 13 - m,
{
    if m >= 13 {
        0
    } else {
        days_in_month(y, m) + days_from_month(y, m + 1)
    }
}

proof fn lemma_months_fill_year(y: nat)
    ensures
        days_from_month(y, 1) == days_in_year(y),
{
    reveal_with_fuel(days_from_month, 13);
}

/// The month and day that `month_and_day` gives lie in the month's range.
proof fn lemma_month_and_day_range(doy: nat, y: nat, m: nat)
    requires
        1 <= m <= 12,
        doy < days_from_month(y, m),
    ensures
        1 <= month_and_day(doy, y, m).0 <= 12,
        month_and_day(doy, y, m).1 < 31,
    decreases 12 - m,
{
    if m >= 12 || doy < days_in_month(y, m) {
        if m == 12 {
            assert(days_from_month(y, 13) == 0);
        }
    } else {
        lemma_month_and_day_range((doy - days_in_month(y, m)) as nat, y, m + 1);
    }
}

/// The length of month `m` (1 to 12) of year `y` on the Gregorian
/// calendar, read from the table of a common year, with a 29th of February
/// in every year divisible by 4, except centuries not divisible by 400.
pub open spec fn gregorian_month_days(y: nat, m: nat) -> nat {
    let common = seq![31nat, 28nat, 31nat, 30nat, 31nat, 30nat, 31nat, 31nat, 30nat, 31nat, 30nat, 31nat];
    if m == 2 && y % 4 == 0 && (y % 100 != 0 || y % 400 == 0) {
        29
    } else {
        common[m - 1]
    }
}

/// Months have their Gregorian lengths: 31 days for January, March, May,
/// July, August, October and December, 30 for April, June, September and
/// November, and 28 or 29 for February.
pub proof fn lemma_month_lengths(y: nat, m: nat)
    requires
        1 <= m <= 12,
    ensures
        days_in_month(y, m) == gregorian_month_days(y, m),
        set![1nat, 3nat, 5nat, 7nat, 8nat, 10nat, 12nat].contains(m) ==> days_in_month(y, m) == 31,
        set![4nat, 6nat, 9nat, 11nat].contains(m) ==> days_in_month(y, m) == 30,
        m == 2 ==> days_in_month(y, m) == 28 || days_in_month(y, m) == 29,
{
}

/// One day on from day `doy` of year `y` (counted from zero) is the next
/// day of the same year, or the first day of the next year.
proof fn lemma_year_step(days: nat, y0: nat)
    ensures
        year_and_day(days, y0).1 < days_in_year(year_and_day(days, y0).0),
        year_and_day(days + 1, y0) == if year_and_day(days, y0).1 + 1 < days_in_year(
            year_and_day(days, y0).0,
        ) {
            (year_and_day(days, y0).0, year_and_day(days, y0).1 + 1)
        } else {
            (year_and_day(days, y0).0 + 1, 0nat)
        },
    decreases days,
{
    if days < days_in_year(y0) {
        if days + 1 >= days_in_year(y0) {
            assert(((days + 1) - days_in_year(y0)) as nat == 0);
            assert(year_and_day(0, y0 + 1) == (y0 + 1, 0nat));
        }
    } else {
        lemma_year_step((days - days_in_year(y0)) as nat, y0 + 1);
        assert(((days + 1) - days_in_year(y0)) as nat == (days - days_in_year(y0)) as nat + 1);
    }
}

/// One day on from day `x` counted from the first of month `m0` is the
/// next day of the same month, or the first day of the next month; the
/// last day of the year falls on the last day of December.
proof fn lemma_month_step(x: nat, y: nat, m0: nat)
    requires
        1 <= m0 <= 12,
        x < days_from_month(y, m0),
    ensures
        m0 <= month_and_day(x, y, m0).0 <= 12,
        month_and_day(x, y, m0).1 < days_in_month(y, month_and_day(x, y, m0).0),
        x + 1 < days_from_month(y, m0) ==> month_and_day(x + 1, y, m0) == if month_and_day(
            x,
            y,
            m0,
        ).1 + 1 < days_in_month(y, month_and_day(x, y, m0).0) {
            (month_and_day(x, y, m0).0, month_and_day(x, y, m0).1 + 1)
        } else {
            (month_and_day(x, y, m0).0 + 1, 0nat)
        },
        x + 1 == days_from_month(y, m0) ==> month_and_day(x, y, m0).0 == 12
            && month_and_day(x, y, m0).1 + 1 == days_in_month(y, 12),
        month_and_day(x, y, m0).0 == 12 ==> x + days_in_month(y, 12) == days_from_month(y, m0)
            + month_and_day(x, y, m0).1,
    decreases 12 - m0,
{
    assert(days_from_month(y, 13) == 0);
    if m0 == 12 {
        assert(days_from_month(y, 12) == days_in_month(y, 12));
    } else if x < days_in_month(y, m0) {
        assert(days_from_month(y, m0) == days_in_month(y, m0) + days_from_month(y, m0 + 1));
        assert(days_from_month(y, m0 + 1) >= days_in_month(y, m0 + 1));
        if x + 1 == days_in_month(y, m0) {
            assert(((x + 1) - days_in_month(y, m0)) as nat == 0);
            assert(month_and_day(0, y, m0 + 1) == (m0 + 1, 0nat));
        }
    } else {
        assert(days_from_month(y, m0) == days_in_month(y, m0) + days_from_month(y, m0 + 1));
        lemma_month_step((x - days_in_month(y, m0)) as nat, y, m0 + 1);
        assert(((x + 1) - days_in_month(y, m0)) as nat == (x - days_in_month(y, m0)) as nat + 1);
    }
}

/// Day zero is 1970-01-01.
pub proof fn lemma_civil_date_epoch()
    ensures
        civil_date(0) == (1970nat, 1nat, 1nat),
{
    assert(year_and_day(0, 1970) == (1970nat, 0nat));
    assert(month_and_day(0, 1970, 1) == (1nat, 0nat));
}

/// Consecutive day counts give consecutive Gregorian dates: the day of the
/// month lies between 1 and the month's Gregorian length; the next day is
/// the next day of the month, or the first of the next month after a
/// month's last day, or the first of January after the 31st of December.
pub proof fn lemma_civil_date_successor(days: nat)
    ensures
        1 <= civil_date(days).1 <= 12,
        1 <= civil_date(days).2 <= gregorian_month_days(civil_date(days).0, civil_date(days).1),
        civil_date(days).2 < gregorian_month_days(civil_date(days).0, civil_date(days).1)
            ==> civil_date(days + 1) == (
            civil_date(days).0,
            civil_date(days).1,
            civil_date(days).2 + 1,
        ),
        civil_date(days).2 == gregorian_month_days(civil_date(days).0, civil_date(days).1)
            && civil_date(days).1 < 12 ==> civil_date(days + 1) == (
            civil_date(days).0,
            civil_date(days).1 + 1,
            1nat,
        ),
        civil_date(days).2 == gregorian_month_days(civil_date(days).0, civil_date(days).1)
            && civil_date(days).1 == 12 ==> civil_date(days + 1) == (
            civil_date(days).0 + 1,
            1nat,
            1nat,
        ),
{
    let (y, doy) = year_and_day(days, 1970);
    lemma_year_step(days, 1970);
    lemma_months_fill_year(y);
    lemma_month_step(doy, y, 1);
    let (m, dd) = month_and_day(doy, y, 1);
    lemma_month_lengths(y, m);
    if doy + 1 < days_in_year(y) {
        assert(year_and_day(days + 1, 1970) == (y, doy + 1));
    } else {
        assert(year_and_day(days + 1, 1970) == (y + 1, 0nat));
        assert(month_and_day(0, y + 1, 1) == (1nat, 0nat));
    }
}

/// The ISO 8601 text of a count of milliseconds reads back as that count.
/// Where the year has at most four digits the text is 24 characters long,
/// with `-`, `-`, `T`, `:`, `:`, `.` and `Z` in their places; the year,
/// month and day read as the calendar date of the day that the count falls
/// in, and the hours, minutes, seconds and milliseconds read as a time of
/// day before 24:00 that adds up to the milliseconds since that midnight.
pub proof fn lemma_iso8601_reads_back(millis: u64)
    requires
        civil_date((millis / 86_400_000) as nat).0 < 10000,
    ensures
        ({
            let t = iso8601_text(millis);
            let hh = decimal_value(t.subrange(11, 13));
            let mm = decimal_value(t.subrange(14, 16));
            let ss = decimal_value(t.subrange(17, 19));
            let fff = decimal_value(t.subrange(20, 23));
            &&& t.len() == 24
            &&& t[4] == '-' && t[7] == '-' && t[10] == 'T' && t[13] == ':' && t[16] == ':'
            &&& t[19] == '.' && t[23] == 'Z'
            &&& (decimal_value(t.subrange(0, 4)), decimal_value(t.subrange(5, 7)), decimal_value(
                t.subrange(8, 10),
            )) == civil_date((millis / 86_400_000) as nat)
            &&& hh < 24 && mm < 60 && ss < 60
            &&& hh * 3_600_000 + mm * 60_000 + ss * 1000 + fff == millis % 86_400_000
        }),
{
    reveal_strlit("-");
    reveal_strlit("T");
    reveal_strlit(":");
    reveal_strlit(".");
    reveal_strlit("Z");
    let secs = millis / 1000;
    let ms = millis % 1000;
    vstd::arithmetic::div_mod::lemma_div_denominator(millis as int, 1000, 86400);
    assert(secs / 86400 == millis / 86_400_000);
    let day = (secs / 86400) as nat;
    let (y, m, d) = civil_date(day);
    lemma_civil_date_successor(day);
    lemma_month_lengths(y, m);
    let h = ((secs % 86400) / 3600) as nat;
    let mi = ((secs % 3600) / 60) as nat;
    let sc = (secs % 60) as nat;
    lemma_decimal_len(y);
    lemma_decimal_len(m);
    lemma_decimal_len(d);
    lemma_decimal_len(h);
    lemma_decimal_len(mi);
    lemma_decimal_len(sc);
    lemma_decimal_len(ms as nat);
    lemma_zero_padded_reads_back(y, 4);
    lemma_zero_padded_reads_back(m, 2);
    lemma_zero_padded_reads_back(d, 2);
    lemma_zero_padded_reads_back(h, 2);
    lemma_zero_padded_reads_back(mi, 2);
    lemma_zero_padded_reads_back(sc, 2);
    lemma_zero_padded_reads_back(ms as nat, 3);
    let a = zero_padded(y, 4);
    let b = zero_padded(m, 2);
    let c = zero_padded(d, 2);
    let e = zero_padded(h, 2);
    let f = zero_padded(mi, 2);
    let g = zero_padded(sc, 2);
    let k = zero_padded(ms as nat, 3);
    let t = iso8601_text(millis);
    assert(t =~= a + "-"@ + b + "-"@ + c + "T"@ + e + ":"@ + f + ":"@ + g + "."@ + k + "Z"@);
    assert(t.subrange(0, 4) =~= a);
    assert(t.subrange(5, 7) =~= b);
    assert(t.subrange(8, 10) =~= c);
    assert(t.subrange(11, 13) =~= e);
    assert(t.subrange(14, 16) =~= f);
    assert(t.subrange(17, 19) =~= g);
    assert(t.subrange(20, 23) =~= k);
    vstd::arithmetic::div_mod::lemma_breakdown(millis as int, 1000, 86400);
    vstd::arithmetic::div_mod::lemma_mod_mod(secs as int, 3600, 24);
    vstd::arithmetic::div_mod::lemma_fundamental_div_mod((secs % 86400) as int, 3600);
    vstd::arithmetic::div_mod::lemma_fundamental_div_mod((secs % 3600) as int, 60);
    vstd::arithmetic::div_mod::lemma_mod_mod(secs as int, 60, 60);
    assert(millis % 86_400_000 == 1000 * (secs % 86400) + ms);
    assert(secs % 86400 == 3600 * h + secs % 3600);
    assert(secs % 3600 == 60 * mi + sc);
}

/// The days of the `n` years from year `y` on.
spec fn days_in_years(y: nat, n: nat) -> nat
    decreases n,
{
    if n == 0 {
        0
    } else {
        days_in_year(y) + days_in_years(y + 1, (n - 1) as nat)
    }
}

/// Whole years at the start of a day count can be taken off it at once.
proof fn lemma_skip_years(d: nat, y: nat, n: nat)
    requires
        d >= days_in_years(y, n),
    ensures
        year_and_day(d, y) == year_and_day((d - days_in_years(y, n)) as nat, y + n),
    decreases n,
{
    if n > 0 {
        assert(days_in_years(y, n) == days_in_year(y) + days_in_years(y + 1, (n - 1) as nat));
        lemma_skip_years((d - days_in_year(y)) as nat, y + 1, (n - 1) as nat);
        assert((y + 1) + (n - 1) == y + n);
    }
}

proof fn lemma_split_years(y: nat, a: nat, b: nat)
    ensures
        days_in_years(y, a + b) == days_in_years(y, a) + days_in_years(y + a, b),
    decreases a,
{
    if a > 0 {
        lemma_split_years(y + 1, (a - 1) as nat, b);
        assert((a + b - 1) as nat == (a - 1) + b);
        assert(y + 1 + (a - 1) == y + a);
    }
}

/// Four years from a multiple of 4 that is not a century hold 1,461 days.
proof fn lemma_four_years(y: nat)
    requires
        y % 4 == 0,
        y % 100 != 0,
    ensures
        days_in_years(y, 4) == 1461,
{
    reveal_with_fuel(days_in_years, 5);
    assert(is_leap_year(y));
    assert(!is_leap_year(y + 1));
    assert(!is_leap_year(y + 2));
    assert(!is_leap_year(y + 3));
}

/// After a century year, the next `4 * m` years (m at most 24) hold
/// `1461 * m` days.
proof fn lemma_blocks(y: nat, m: nat)
    requires
        y % 100 == 0,
        m <= 24,
    ensures
        days_in_years(y + 4, 4 * m) == 1461 * m,
    decreases m,
{
    if m > 0 {
        lemma_blocks(y, (m - 1) as nat);
        lemma_split_years(y + 4, 4 * (m - 1) as nat, 4);
        assert(4 * (m - 1) as nat + 4 == 4 * m);
        let z = y + 4 + 4 * (m - 1) as nat;
        assert(z == y + 4 * m);
        assert(z % 4 == 0);
        assert(z % 100 != 0);
        lemma_four_years(z);
    }
}

/// A hundred years from a century year hold 36,524 days, one more when the
/// century year is a multiple of 400.
proof fn lemma_century(y: nat)
    requires
        y % 100 == 0,
    ensures
        days_in_years(y, 100) == if y % 400 == 0 {
            36525nat
        } else {
            36524nat
        },
{
    lemma_split_years(y, 4, 96);
    lemma_blocks(y, 24);
    reveal_with_fuel(days_in_years, 5);
    assert(!is_leap_year(y + 1));
    assert(!is_leap_year(y + 2));
    assert(!is_leap_year(y + 3));
}

/// Four hundred years from a multiple of 400 hold 146,097 days.
proof fn lemma_cycle_days(y: nat)
    requires
        y % 400 == 0,
    ensures
        days_in_years(y, 400) == 146097,
{
    lemma_split_years(y, 100, 300);
    lemma_split_years(y + 100, 100, 200);
    lemma_split_years(y + 200, 100, 100);
    lemma_century(y);
    lemma_century(y + 100);
    lemma_century(y + 200);
    lemma_century(y + 300);
}

fn is_leap(y: u64) -> (r: bool)
    ensures
        r == is_leap_year(y as nat),
{
    y % 4 == 0 && (y % 100 != 0 || y % 400 == 0)
}

fn year_length(y: u64) -> (r: u64)
    ensures
        r == days_in_year(y as nat),
{
    if is_leap(y) {
        366
    } else {
        365
    }
}

fn month_length(y: u64, m: u64) -> (r: u64)
    ensures
        r == days_in_month(y as nat, m as nat),
{
    if m == 2 {
        if is_leap(y) {
            29
        } else {
            28
        }
    } else if m == 4 || m == 6 || m == 9 || m == 11 {
        30
    } else {
        31
    }
}

/// The calendar date `days` days after 1970-01-01.
pub fn civil_from_days(days: u64) -> (r: (u64, u64, u64))
    ensures
        (r.0 as nat, r.1 as nat, r.2 as nat) == civil_date(days as nat),
        1 <= r.1 <= 12,
        1 <= r.2 <= 31,
{
    let mut y: u64 = 1970;
    let mut rem: u64 = days;
    while rem >= year_length(y)
        invariant
            year_and_day(days as nat, 1970) == year_and_day(rem as nat, y as nat),
            1970 <= y,
            365 * (y - 1970) <= days - rem,
            rem <= days,
        decreases rem,
    {
        if y % 400 == 0 && rem >= 146097 {
            proof {
                lemma_cycle_days(y as nat);
                lemma_skip_years(rem as nat, y as nat, 400);
            }
            rem = rem - 146097;
            y = y + 400;
        } else {
            rem = rem - year_length(y);
            y = y + 1;
        }
    }
    let ghost doy0 = rem as nat;
    let mut m: u64 = 1;
    proof {
        lemma_months_fill_year(y as nat);
        lemma_month_and_day_range(doy0, y as nat, 1);
    }
    while m < 12 && rem >= month_length(y, m)
        invariant
            1 <= m <= 12,
            month_and_day(doy0, y as nat, 1) == month_and_day(rem as nat, y as nat, m as nat),
            rem <= doy0,
        decreases 12 - m,
    {
        rem = rem - month_length(y, m);
        m = m + 1;
    }
    assert(month_and_day(rem as nat, y as nat, m as nat) == (m as nat, rem as nat));
    (y, m, rem + 1)
}

/// Nanoseconds from the Unix epoch to the clock reading `t`.
pub fn nanos_since_epoch(t: SystemTime) -> (r: u64)
    ensures
        r == epoch_nanos(t),
{
    match since_unix_epoch(t) {
        Some(d) => {
            let n = duration_as_nanos(d);
            (n % 0x1_0000_0000_0000_0000u128) as u64
        },
        None => 0,
    }
}

/// The current system time in nanoseconds since the Unix epoch.
pub fn now_nanos() -> (r: u64)
    ensures
        exists|t: SystemTime| r == #[trigger] epoch_nanos(t),
{
    let t = system_time_now();
    nanos_since_epoch(t)
}

/// The current system time in milliseconds since the Unix epoch.
pub fn now_millis() -> (r: u64)
    ensures
        exists|t: SystemTime| r == #[trigger] epoch_nanos(t) / NANOS_PER_MILLI,
{
    now_nanos() / NANOS_PER_MILLI
}

/// The current system time in seconds since the Unix epoch.
pub fn now_secs() -> (r: u64)
    ensures
        exists|t: SystemTime| r == #[trigger] epoch_nanos(t) / NANOS_PER_SEC,
{
    now_nanos() / NANOS_PER_SEC
}

/// Writes a count of milliseconds since the epoch as ISO 8601 text.
pub fn iso8601_from_millis(millis: u64) -> (r: String)
    ensures
        r@ == iso8601_text(millis),
{
    proof {
        reveal_strlit("-");
        reveal_strlit("T");
        reveal_strlit(":");
        reveal_strlit(".");
        reveal_strlit("Z");
    }
    let secs = millis / 1000;
    let ms = millis % 1000;
    let (y, m, d) = civil_from_days(secs / 86400);
    let mut s = four_digit_string(y);
    s.append("-");
    s.append(two_digit_string(m).as_str());
    s.append("-");
    s.append(two_digit_string(d).as_str());
    s.append("T");
    s.append(two_digit_string((secs % 86400) / 3600).as_str());
    s.append(":");
    s.append(two_digit_string((secs % 3600) / 60).as_str());
    s.append(":");
    s.append(two_digit_string(secs % 60).as_str());
    s.append(".");
    s.append(three_digit_string(ms).as_str());
    s.append("Z");
    assert(s@ =~= iso8601_text(millis));
    s
}

/// The current system time as timestamp text.
pub fn now_iso8601() -> (r: String)
    ensures
        exists|t: SystemTime| r@ == iso8601_text(#[trigger] epoch_nanos(t) / NANOS_PER_MILLI),
{
    iso8601_from_millis(now_millis())
}

} // verus!
