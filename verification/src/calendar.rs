//! The proleptic Gregorian calendar, as far as tax reporting needs it: the
//! year and the month in which a Unix timestamp falls, and the fiscal year
//! that contains it.
//!
//! Contracts speak of days counted from 1 January 1970, which is day 0.
use vstd::prelude::*;

verus! {

pub const SECS_PER_DAY: u64 = 86_400;

/// Days in each month of a common year (January at index 0).
const MONTH_DAYS_NON_LEAP: [u64; 12] = [31, 28, 31, 30, 31, 30, 31, 31, 30, 31, 30, 31];

/// Days in each month of a leap year (January at index 0).
const MONTH_DAYS_LEAP: [u64; 12] = [31, 29, 31, 30, 31, 30, 31, 31, 30, 31, 30, 31];

/// Default fiscal year start month (January = 1).
pub const DEFAULT_FISCAL_START_MONTH: u32 = 1;

/// The last second of the year `u32::MAX`: no later timestamp has a year that
/// a `u32` can hold.
pub const MAX_TIMESTAMP: u64 = 135_536_014_634_284_799;

// ---------------------------------------------------------------------------
// Model
// ---------------------------------------------------------------------------

/// The day on which the second `ts` falls.
pub open spec fn day_of(ts: u64) -> int {
    ts as int / 86_400
}

pub open spec fn leap_year(year: int) -> bool {
    (year % 4 == 0 && year % 100 != 0) || year % 400 == 0
}

pub open spec fn days_in_year(year: int) -> int {
    if leap_year(year) {
        366
    } else {
        365
    }
}

/// Leap years among the years 1 to `year - 1`.
pub open spec fn leap_years_before(year: int) -> int {
    (year - 1) / 4 - (year - 1) / 100 + (year - 1) / 400
}

/// The day number of 1 January of `year`.
pub open spec fn days_before_year(year: int) -> int {
    365 * (year - 1970) + leap_years_before(year) - leap_years_before(1970)
}

pub open spec fn days_in_month(year: int, month: int) -> int {
    if month == 2 {
        if leap_year(year) {
            29
        } else {
            28
        }
    } else if month == 4 || month == 6 || month == 9 || month == 11 {
        30
    } else {
        31
    }
}

/// Days of `year` that lie before the first day of `month` (1 to 13, where 13
/// stands for the end of the year).
pub open spec fn days_before_month(year: int, month: int) -> int {
    let leap_day: int = if leap_year(year) { 1 } else { 0 };
    if month <= 1 {
        0
    } else if month == 2 {
        31
    } else {
        leap_day + if month == 3 {
            59int
        } else if month == 4 {
            90
        } else if month == 5 {
            120
        } else if month == 6 {
            151
        } else if month == 7 {
            181
        } else if month == 8 {
            212
        } else if month == 9 {
            243
        } else if month == 10 {
            273
        } else if month == 11 {
            304
        } else if month == 12 {
            334
        } else {
            365
        }
    }
}

/// The day number of the first day of `month` (1 to 12) of `year`.
pub open spec fn month_start(year: int, month: int) -> int {
    days_before_year(year) + days_before_month(year, month)
}

/// Whether `day` falls in `year`.
pub open spec fn in_year(day: int, year: int) -> bool {
    days_before_year(year) <= day < days_before_year(year + 1)
}

/// Whether `day` falls in `month` of `year`.
pub open spec fn in_month(day: int, year: int, month: int) -> bool {
    &&& 1 <= month <= 12
    &&& month_start(year, month) <= day < month_start(year, month) + days_in_month(year, month)
}

/// The year in which `day` falls.
pub open spec fn calendar_year(day: int) -> int {
    choose|year: int| in_year(day, year)
}

/// The month (1 to 12) in which `day` falls.
pub open spec fn calendar_month(day: int) -> int {
    choose|month: int| in_month(day, calendar_year(day), month)
}

/// The fiscal year of `day` where fiscal years begin in `start_month`: a day in
/// an earlier month belongs to the fiscal year that began the calendar year
/// before.
pub open spec fn fiscal_year(day: int, start_month: int) -> int {
    if calendar_month(day) < start_month {
        calendar_year(day) - 1
    } else {
        calendar_year(day)
    }
}

// ---------------------------------------------------------------------------
// Laws
// ---------------------------------------------------------------------------

/// Consecutive years lie end to end, counted from 1970: each 1 January comes
/// `days_in_year` days after the one before.
pub proof fn law_years_are_contiguous(year: int)
    ensures
        days_before_year(1970) == 0,
        days_before_year(year + 1) == days_before_year(year) + days_in_year(year),
{
}

/// The months of a year lie end to end and fill it exactly.
pub proof fn law_months_fill_the_year(year: int, month: int)
    requires
        1 <= month <= 12,
    ensures
        days_before_month(year, 1) == 0,
        days_before_month(year, month + 1) == days_before_month(year, month) + days_in_month(
            year,
            month,
        ),
        days_before_month(year, 13) == days_in_year(year),
{
}

/// Later years begin on later days.
pub proof fn law_years_are_ordered(earlier: int, later: int)
    requires
        earlier < later,
    ensures
        days_before_year(earlier) + 365 * (later - earlier) <= days_before_year(later),
    decreases later - earlier,
{
    law_years_are_contiguous(later - 1);
    if earlier < later - 1 {
        law_years_are_ordered(earlier, later - 1);
    }
}

/// Every day from 1970 on falls in exactly one year, and that is its calendar
/// year.
pub proof fn law_every_day_has_one_year(day: int)
    requires
        day >= 0,
    ensures
        in_year(day, calendar_year(day)),
        calendar_year(day) >= 1970,
        forall|year: int| in_year(day, year) ==> year == calendar_year(day),
    decreases day,
{
    if day == 0 {
        assert(in_year(0, 1970));
    } else {
        law_every_day_has_one_year(day - 1);
        let previous = calendar_year(day - 1);
        assert(in_year(day, previous) || in_year(day, previous + 1)) by {
            law_years_are_contiguous(previous + 1);
        }
    }
    let the_year = calendar_year(day);
    assert(in_year(day, the_year));
    assert forall|year: int| in_year(day, year) implies year == the_year by {
        if year + 1 <= the_year {
            lemma_years_never_go_back(year + 1, the_year);
        } else if the_year + 1 <= year {
            lemma_years_never_go_back(the_year + 1, year);
        }
    }
    if the_year < 1970 {
        lemma_years_never_go_back(the_year + 1, 1970);
    }
}

proof fn lemma_years_never_go_back(earlier: int, later: int)
    requires
        earlier <= later,
    ensures
        days_before_year(earlier) <= days_before_year(later),
{
    if earlier < later {
        law_years_are_ordered(earlier, later);
    }
}

/// Every day from 1970 on falls in exactly one month of its calendar year.
pub proof fn law_every_day_has_one_month(day: int)
    requires
        day >= 0,
    ensures
        in_month(day, calendar_year(day), calendar_month(day)),
        forall|month: int|
            in_month(day, calendar_year(day), month) ==> month == calendar_month(day),
{
    law_every_day_has_one_year(day);
    let year = calendar_year(day);
    law_years_are_contiguous(year);
    assert(exists|month: int| in_month(day, year, month)) by {
        assert(in_month(day, year, 1) || in_month(day, year, 2) || in_month(day, year, 3)
            || in_month(day, year, 4) || in_month(day, year, 5) || in_month(day, year, 6)
            || in_month(day, year, 7) || in_month(day, year, 8) || in_month(day, year, 9)
            || in_month(day, year, 10) || in_month(day, year, 11) || in_month(day, year, 12));
    }
}

/// A date names its timestamp's year and month: whatever day lies in `month`
/// of `year` has that calendar year and that calendar month.
pub proof fn law_months_belong_to_their_year(day: int, year: int, month: int)
    requires
        day >= 0,
        in_month(day, year, month),
    ensures
        calendar_year(day) == year,
        calendar_month(day) == month,
{
    law_years_are_contiguous(year);
    law_months_fill_the_year(year, month);
    assert(in_year(day, year));
    law_every_day_has_one_year(day);
    law_every_day_has_one_month(day);
}

/// The calendar year of a timestamp fits in a `u32` exactly up to
/// `MAX_TIMESTAMP`.
pub proof fn law_max_timestamp_is_exact(ts: u64)
    ensures
        ts <= MAX_TIMESTAMP <==> calendar_year(day_of(ts)) <= u32::MAX,
{
    let day = day_of(ts);
    law_every_day_has_one_year(day);
    let year = calendar_year(day);
    if year <= u32::MAX {
        lemma_years_never_go_back(year + 1, 0x1_0000_0000);
    } else {
        lemma_years_never_go_back(0x1_0000_0000, year);
    }
}

/// The fiscal year of a day is the one that contains it: it begins with the
/// first day of the start month, and the next one begins after the day.
pub proof fn law_fiscal_year_contains_its_days(day: int, start_month: int)
    requires
        day >= 0,
        1 <= start_month <= 12,
    ensures
        month_start(fiscal_year(day, start_month), start_month) <= day < month_start(
            fiscal_year(day, start_month) + 1,
            start_month,
        ),
{
    law_every_day_has_one_year(day);
    law_every_day_has_one_month(day);
    let year = calendar_year(day);
    law_years_are_contiguous(year - 1);
    law_years_are_contiguous(year);
}

/// No other fiscal year contains the day.
pub proof fn law_fiscal_year_is_unique(day: int, start_month: int, year: int)
    requires
        day >= 0,
        1 <= start_month <= 12,
        month_start(year, start_month) <= day < month_start(year + 1, start_month),
    ensures
        year == fiscal_year(day, start_month),
{
    law_fiscal_year_contains_its_days(day, start_month);
    let other = fiscal_year(day, start_month);
    if year < other {
        lemma_month_starts_never_go_back(year + 1, other, start_month);
    } else if other < year {
        lemma_month_starts_never_go_back(other + 1, year, start_month);
    }
}

proof fn lemma_month_starts_never_go_back(earlier: int, later: int, month: int)
    requires
        earlier <= later,
        1 <= month <= 12,
    ensures
        month_start(earlier, month) <= month_start(later, month),
{
    if earlier < later {
        law_years_are_ordered(earlier, later);
    }
}

/// Time never moves a calendar year or a fiscal year back.
pub proof fn law_years_follow_time(earlier: u64, later: u64, start_month: u32)
    requires
        earlier <= later,
    ensures
        calendar_year(day_of(earlier)) <= calendar_year(day_of(later)),
        fiscal_year(day_of(earlier), start_month as int) <= fiscal_year(
            day_of(later),
            start_month as int,
        ),
{
    let d0 = day_of(earlier);
    let d1 = day_of(later);
    law_every_day_has_one_year(d0);
    law_every_day_has_one_year(d1);
    law_every_day_has_one_month(d0);
    law_every_day_has_one_month(d1);
    if calendar_year(d1) < calendar_year(d0) {
        lemma_years_never_go_back(calendar_year(d1) + 1, calendar_year(d0));
    }
}

/// With fiscal years that begin in January, the fiscal year is the calendar
/// year.
pub proof fn law_january_start_is_the_calendar_year(day: int)
    requires
        day >= 0,
    ensures
        fiscal_year(day, DEFAULT_FISCAL_START_MONTH as int) == calendar_year(day),
{
    law_every_day_has_one_month(day);
}

/// The day of a timestamp is the one whose 86400 seconds contain it.
pub proof fn law_day_contains_its_seconds(ts: u64)
    ensures
        day_of(ts) * 86_400 <= ts < (day_of(ts) + 1) * 86_400,
{
}

/// Every fourth year is a leap year, but of the centuries only every fourth.
pub proof fn law_gregorian_leap_rule(year: int)
    ensures
        year % 4 != 0 ==> !leap_year(year),
        year % 4 == 0 && year % 100 != 0 ==> leap_year(year),
        year % 100 == 0 && year % 400 != 0 ==> !leap_year(year),
        year % 400 == 0 ==> leap_year(year),
{
}

/// From 1 January 1970, day 0, each year lasts 365 days, or 366 if the Gregorian
/// rule makes it a leap year; 400 years last 146097 days.
pub proof fn law_gregorian_year_lengths(year: int)
    ensures
        days_before_year(1970) == 0,
        year % 4 != 0 ==> days_before_year(year + 1) == days_before_year(year) + 365,
        year % 4 == 0 && year % 100 != 0 ==> days_before_year(year + 1) == days_before_year(year)
            + 366,
        year % 100 == 0 && year % 400 != 0 ==> days_before_year(year + 1) == days_before_year(year)
            + 365,
        year % 400 == 0 ==> days_before_year(year + 1) == days_before_year(year) + 366,
        days_before_year(year + 400) == days_before_year(year) + 146_097,
{
    law_years_are_contiguous(year);
    law_gregorian_leap_rule(year);
    assert(days_before_year(year + 400) == days_before_year(year) + 146_097) by {
        let before = year - 1;
        assert((before + 400) / 4 == before / 4 + 100);
        assert((before + 400) / 100 == before / 100 + 4);
        assert((before + 400) / 400 == before / 400 + 1);
    }
}

/// Each month has its Gregorian length: the first begins with the year, each
/// begins where the one before it ends, and the year ends with the last.
pub proof fn law_gregorian_month_lengths(year: int)
    ensures
        month_start(year, 1) == days_before_year(year),
        month_start(year, 2) == month_start(year, 1) + 31,
        year % 4 != 0 ==> month_start(year, 3) == month_start(year, 2) + 28,
        year % 4 == 0 && year % 100 != 0 ==> month_start(year, 3) == month_start(year, 2) + 29,
        year % 100 == 0 && year % 400 != 0 ==> month_start(year, 3) == month_start(year, 2) + 28,
        year % 400 == 0 ==> month_start(year, 3) == month_start(year, 2) + 29,
        month_start(year, 4) == month_start(year, 3) + 31,
        month_start(year, 5) == month_start(year, 4) + 30,
        month_start(year, 6) == month_start(year, 5) + 31,
        month_start(year, 7) == month_start(year, 6) + 30,
        month_start(year, 8) == month_start(year, 7) + 31,
        month_start(year, 9) == month_start(year, 8) + 31,
        month_start(year, 10) == month_start(year, 9) + 30,
        month_start(year, 11) == month_start(year, 10) + 31,
        month_start(year, 12) == month_start(year, 11) + 30,
        days_before_year(year + 1) == month_start(year, 12) + 31,
        forall|month: int|
            1 <= month <= 11 ==> month_start(year, month + 1) == month_start(year, month)
                + #[trigger] days_in_month(year, month),
        days_in_month(year, 12) == 31,
{
    law_years_are_contiguous(year);
}

/// The calendar year of a timestamp begins no later than it and ends after it,
/// and so does its calendar month within that year, counted in seconds.
pub proof fn law_date_contains_its_seconds(ts: u64)
    ensures
        ({
            let year = calendar_year(day_of(ts));
            let month = calendar_month(day_of(ts));
            &&& days_before_year(year) * 86_400 <= ts < days_before_year(year + 1) * 86_400
            &&& 1 <= month <= 12
            &&& month_start(year, month) * 86_400 <= ts
            &&& month < 12 ==> ts < month_start(year, month + 1) * 86_400
            &&& month == 12 ==> ts < days_before_year(year + 1) * 86_400
        }),
{
    let day = day_of(ts);
    law_day_contains_its_seconds(ts);
    law_every_day_has_one_year(day);
    law_every_day_has_one_month(day);
    law_years_are_contiguous(calendar_year(day));
    law_months_fill_the_year(calendar_year(day), calendar_month(day));
}

/// Day 0 lies in January 1970. The day after a day lies in the same month, or in
/// the next one where the month is over: after December, in January of the next
/// year.
pub proof fn law_days_follow_each_other(day: int)
    requires
        day >= 0,
    ensures
        calendar_year(0) == 1970,
        calendar_month(0) == 1,
        ({
            let year = calendar_year(day);
            let month = calendar_month(day);
            let next = if month < 12 {
                month_start(year, month + 1)
            } else {
                days_before_year(year + 1)
            };
            &&& day < next
            &&& day + 1 < next ==> calendar_year(day + 1) == year && calendar_month(day + 1)
                == month
            &&& day + 1 == next && month < 12 ==> calendar_year(day + 1) == year && calendar_month(
                day + 1,
            ) == month + 1
            &&& day + 1 == next && month == 12 ==> calendar_year(day + 1) == year + 1
                && calendar_month(day + 1) == 1
        }),
{
    law_months_belong_to_their_year(0, 1970, 1);
    law_every_day_has_one_year(day);
    law_every_day_has_one_month(day);
    let year = calendar_year(day);
    let month = calendar_month(day);
    law_years_are_contiguous(year);
    law_months_fill_the_year(year, month);
    let next = if month < 12 {
        month_start(year, month + 1)
    } else {
        days_before_year(year + 1)
    };
    assert(next == month_start(year, month) + days_in_month(year, month));
    if day + 1 < next {
        law_months_belong_to_their_year(day + 1, year, month);
    } else if month < 12 {
        law_months_belong_to_their_year(day + 1, year, month + 1);
    } else {
        law_months_belong_to_their_year(day + 1, year + 1, 1);
    }
}

/// A fiscal year takes its number from the calendar year in which it begins:
/// days before the start month still belong to the one of the year before.
pub proof fn law_fiscal_year_begins_in_its_calendar_year(day: int, start_month: int)
    ensures
        calendar_month(day) < start_month ==> fiscal_year(day, start_month) == calendar_year(day)
            - 1,
        calendar_month(day) >= start_month ==> fiscal_year(day, start_month) == calendar_year(day),
        DEFAULT_FISCAL_START_MONTH == 1,
{
}

// ---------------------------------------------------------------------------
// Functions
// ---------------------------------------------------------------------------

/// Returns `true` if `year` is a Gregorian leap year.
pub fn is_leap_year(year: u32) -> (leap: bool)
    ensures
        leap == leap_year(year as int),
        year % 4 != 0 ==> !leap,
        year % 4 == 0 && year % 100 != 0 ==> leap,
        year % 100 == 0 && year % 400 != 0 ==> !leap,
        year % 400 == 0 ==> leap,
{
    (year % 4 == 0 && year % 100 != 0) || year % 400 == 0
}

/// The calendar year of `day`, and how many days of that year lie before it.
fn year_and_offset(day: u64) -> (split: (u32, u64))
    requires
        day < days_before_year(0x1_0000_0000),
    ensures
        in_year(day as int, split.0 as int),
        split.1 == day - days_before_year(split.0 as int),
{
    let mut year: u32 = 1970;
    let mut remaining: u64 = day;
    loop
        invariant
            year >= 1970,
            remaining + days_before_year(year as int) == day,
            day < days_before_year(0x1_0000_0000),
        ensures
            in_year(day as int, year as int),
            remaining == day - days_before_year(year as int),
        decreases remaining,
    {
        let days_in_year: u64 = if is_leap_year(year) {
            366
        } else {
            365
        };
        proof {
            law_years_are_contiguous(year as int);
        }
        if remaining < days_in_year {
            break;
        }
        remaining -= days_in_year;
        year += 1;
    }
    (year, remaining)
}

/// Convert a Unix timestamp (seconds since epoch) to a Gregorian calendar year.
pub fn timestamp_to_year(ts: u64) -> (year: u32)
    requires
        ts <= MAX_TIMESTAMP,
    ensures
        year == calendar_year(day_of(ts)),
        in_year(day_of(ts), year as int),
        days_before_year(year as int) * 86_400 <= ts < days_before_year(year + 1) * 86_400,
{
    let split = year_and_offset(ts / SECS_PER_DAY);
    proof {
        law_every_day_has_one_year(day_of(ts));
    }
    split.0
}

/// Convert a Unix timestamp (seconds since epoch) to a Gregorian calendar month
/// (1-based: January = 1, February = 2, ...).
pub fn timestamp_to_month(ts: u64) -> (month: u32)
    requires
        ts <= MAX_TIMESTAMP,
    ensures
        month == calendar_month(day_of(ts)),
        in_month(day_of(ts), calendar_year(day_of(ts)), month as int),
        1 <= month <= 12,
        month_start(calendar_year(day_of(ts)), month as int) * 86_400 <= ts,
        month < 12 ==> ts < month_start(calendar_year(day_of(ts)), month + 1) * 86_400,
        month == 12 ==> ts < days_before_year(calendar_year(day_of(ts)) + 1) * 86_400,
{
    let split = year_and_offset(ts / SECS_PER_DAY);
    let year: u32 = split.0;
    let mut remaining: u64 = split.1;
    let month_table: [u64; 12] = if is_leap_year(year) {
        MONTH_DAYS_LEAP
    } else {
        MONTH_DAYS_NON_LEAP
    };
    proof {
        law_every_day_has_one_year(day_of(ts));
        law_years_are_contiguous(year as int);
    }
    let mut month: u32 = 0;
    while remaining >= month_table[month as usize]
        invariant
            month < 12,
            month_table@ == (if leap_year(year as int) {
                MONTH_DAYS_LEAP@
            } else {
                MONTH_DAYS_NON_LEAP@
            }),
            remaining + days_before_month(year as int, month + 1) == day_of(ts) - days_before_year(
                year as int,
            ),
            day_of(ts) - days_before_year(year as int) < days_in_year(year as int),
        decreases 12 - month,
    {
        remaining -= month_table[month as usize];
        month += 1;
    }
    proof {
        assert(in_month(day_of(ts), year as int, month + 1));
        law_every_day_has_one_month(day_of(ts));
        law_date_contains_its_seconds(ts);
    }
    month + 1
}

/// Compute the fiscal year that contains `ts`, given the fiscal year start
/// month (1-12) configured for the offering.
///
/// For example, if the fiscal year starts in April (`fiscal_start_month = 4`):
/// - Timestamps in Apr 2024 to Mar 2025: fiscal year 2024.
/// - Timestamps in Apr 2023 to Mar 2024: fiscal year 2023.
///
/// A start month of 0 counts as January; with one past December every
/// timestamp belongs to the year before its calendar year.
pub fn fiscal_year_from_ts(ts: u64, fiscal_start_month: u32) -> (year: u64)
    requires
        ts <= MAX_TIMESTAMP,
    ensures
        year == fiscal_year(day_of(ts), fiscal_start_month as int),
        1 <= fiscal_start_month <= 12 ==> month_start(year as int, fiscal_start_month as int)
            <= day_of(ts) < month_start(year + 1, fiscal_start_month as int),
        1 <= fiscal_start_month <= 12 ==> month_start(year as int, fiscal_start_month as int)
            * 86_400 <= ts < month_start(year + 1, fiscal_start_month as int) * 86_400,
        fiscal_start_month == 0 ==> in_year(day_of(ts), year as int),
        fiscal_start_month > 12 ==> in_year(day_of(ts), year + 1),
{
    let year = timestamp_to_year(ts);
    let month = timestamp_to_month(ts);
    proof {
        law_every_day_has_one_year(day_of(ts));
        if 1 <= fiscal_start_month <= 12 {
            law_fiscal_year_contains_its_days(day_of(ts), fiscal_start_month as int);
        }
    }
    if month < fiscal_start_month {
        (year - 1) as u64
    } else {
        year as u64
    }
}

} // verus!
