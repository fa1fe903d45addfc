use chrono::Datelike;
use vstd::prelude::*;
use vstd::string::StringExecFns;

use crate::timestamp::{padded_zeros, push_padded, year_text};

verus! {

/// A calendar date: (year, month, day).
pub type CalendarDate = (i32, u32, u32);

/// The first and last year of chrono's dates.
pub open spec fn first_year() -> int {
    -262143
}

pub open spec fn last_year() -> int {
    262142
}

/// Leap years of the proleptic Gregorian calendar.
pub open spec fn is_leap_year(y: int) -> bool {
    (y % 4 == 0 && y % 100 != 0) || y % 400 == 0
}

/// The number of days of month `m` of year `y` (months counted from 1).
pub open spec fn month_length(y: int, m: int) -> int {
    if m == 2 {
        if is_leap_year(y) {
            29
        } else {
            28
        }
    } else if m == 4 || m == 6 || m == 9 || m == 11 {
        30
    } else {
        31
    }
}

/// `d` names a day that chrono can represent.
pub open spec fn valid_date(d: CalendarDate) -> bool {
    &&& first_year() <= d.0 <= last_year()
    &&& 1 <= d.1 <= 12
    &&& 1 <= d.2 <= month_length(d.0 as int, d.1 as int)
}

/// The day before a valid date (on the first day of chrono's range there is none).
pub open spec fn previous_day(d: CalendarDate) -> Option<CalendarDate> {
    if !valid_date(d) {
        None
    } else if d.2 > 1 {
        Some((d.0, d.1, (d.2 - 1) as u32))
    } else if d.1 > 1 {
        Some((d.0, (d.1 - 1) as u32, month_length(d.0 as int, d.1 - 1) as u32))
    } else if d.0 > first_year() {
        Some(((d.0 - 1) as i32, 12u32, 31u32))
    } else {
        None
    }
}

/// The date `(year, month, day)` if chrono has it: `chrono::NaiveDate::from_ymd_opt`, read back
/// as plain values.
#[verifier::external_body]
pub(crate) fn chrono_date(year: i32, month: u32, day: u32) -> (r: Option<CalendarDate>)
    ensures
        r == (if valid_date((year, month, day)) {
            Some((year, month, day))
        } else {
            None
        }),
{
    match chrono::NaiveDate::from_ymd_opt(year, month, day) {
        Some(date) => Some((date.year(), date.month(), date.day())),
        None => None,
    }
}

/// The day before a valid date: `chrono::NaiveDate::pred_opt`, `None` on the first day of
/// chrono's range. The date is rebuilt from its plain values to make the call.
#[verifier::external_body]
fn chrono_previous_day(d: CalendarDate) -> (r: Option<CalendarDate>)
    requires
        valid_date(d),
    ensures
        r == previous_day(d),
{
    match chrono::NaiveDate::from_ymd_opt(d.0, d.1, d.2) {
        Some(date) => match date.pred_opt() {
            Some(prev) => Some((prev.year(), prev.month(), prev.day())),
            None => None,
        },
        None => None,
    }
}

/// The month after `month` of `year`, as the month view counts: December is followed by January.
pub open spec fn following_month(year: int, month: int) -> (int, int) {
    if month == 12 {
        (year + 1, 1)
    } else {
        (year, month + 1)
    }
}

/// What `days_in_month` answers: the day of the day before the first of the following
/// month, or 30 where chrono has no such day.
pub open spec fn days_in_month_spec(year: int, month: int) -> int {
    let next = following_month(year, month);
    match previous_day((next.0 as i32, next.1 as u32, 1u32)) {
        Some(d) => d.2 as int,
        None => 30,
    }
}

/// The number of days of a month, asked of chrono as the day before the first of the
/// following month; 30 where chrono cannot answer.
pub fn days_in_month(year: i32, month: u32) -> (r: u32)
    requires
        month == 12 ==> year < i32::MAX,
        month < u32::MAX,
    ensures
        r == days_in_month_spec(year as int, month as int),
        1 <= month <= 12 && first_year() <= year && year + 1 <= last_year() ==> r == month_length(
            year as int,
            month as int,
        ),
{
    let next_month_year = if month == 12 {
        year + 1
    } else {
        year
    };
    let next_month = if month == 12 {
        1
    } else {
        month + 1
    };
    match chrono_date(next_month_year, next_month, 1) {
        Some(first) => match chrono_previous_day(first) {
            Some(d) => d.2,
            None => 30,
        },
        None => 30,
    }
}

/// The day after a valid date (after the last day of chrono's range there is none).
pub open spec fn next_day(d: CalendarDate) -> Option<CalendarDate> {
    if !valid_date(d) {
        None
    } else if d.2 < month_length(d.0 as int, d.1 as int) {
        Some((d.0, d.1, (d.2 + 1) as u32))
    } else if d.1 < 12 {
        Some((d.0, (d.1 + 1) as u32, 1u32))
    } else if d.0 < last_year() {
        Some(((d.0 + 1) as i32, 1u32, 1u32))
    } else {
        None
    }
}

/// `d` moved by `days` days, one day at a time; `None` where that leaves chrono's range.
pub open spec fn shifted_date(d: CalendarDate, days: int) -> Option<CalendarDate>
    decreases (if days < 0 {
        -days
    } else {
        days
    }),
{
    if days == 0 {
        if valid_date(d) {
            Some(d)
        } else {
            None
        }
    } else if days > 0 {
        match next_day(d) {
            Some(e) => shifted_date(e, days - 1),
            None => None,
        }
    } else {
        match previous_day(d) {
            Some(e) => shifted_date(e, days + 1),
            None => None,
        }
    }
}

/// The day after a valid date is valid, and the day before it is that date again.
pub proof fn lemma_next_then_previous(d: CalendarDate)
    requires
        valid_date(d),
        next_day(d) is Some,
    ensures
        valid_date(next_day(d)->0),
        previous_day(next_day(d)->0) == Some(d),
{
    let e = next_day(d)->0;
    if d.2 < month_length(d.0 as int, d.1 as int) {
        assert(e == (d.0, d.1, (d.2 + 1) as u32));
    } else if d.1 < 12 {
        assert(e == (d.0, (d.1 + 1) as u32, 1u32));
        assert(month_length(d.0 as int, e.1 - 1) == month_length(d.0 as int, d.1 as int));
    } else {
        assert(e == ((d.0 + 1) as i32, 1u32, 1u32));
        assert(d.2 == 31);
    }
}

/// The day before a valid date is valid, and the day after it is that date again.
pub proof fn lemma_previous_then_next(d: CalendarDate)
    requires
        valid_date(d),
        previous_day(d) is Some,
    ensures
        valid_date(previous_day(d)->0),
        next_day(previous_day(d)->0) == Some(d),
{
    let e = previous_day(d)->0;
    if d.2 > 1 {
        assert(e == (d.0, d.1, (d.2 - 1) as u32));
    } else if d.1 > 1 {
        assert(e == (d.0, (d.1 - 1) as u32, month_length(d.0 as int, d.1 - 1) as u32));
    } else {
        assert(e == ((d.0 - 1) as i32, 12u32, 31u32));
    }
}

/// One more day back at the end of a backward move.
proof fn lemma_shift_back_one_more(x: CalendarDate, k: int)
    requires
        k <= 0,
        shifted_date(x, k) is Some,
        previous_day(shifted_date(x, k)->0) is Some,
    ensures
        shifted_date(x, k - 1) == previous_day(shifted_date(x, k)->0),
    decreases -k,
{
    if k == 0 {
        lemma_previous_then_next(x);
        let e = previous_day(x)->0;
        assert(shifted_date(e, 0) == Some(e));
    } else {
        let e = previous_day(x)->0;
        lemma_previous_then_next(x);
        lemma_shift_back_one_more(e, k + 1);
    }
}

/// One more day forward at the end of a forward move.
proof fn lemma_shift_forward_one_more(x: CalendarDate, k: int)
    requires
        k >= 0,
        shifted_date(x, k) is Some,
        next_day(shifted_date(x, k)->0) is Some,
    ensures
        shifted_date(x, k + 1) == next_day(shifted_date(x, k)->0),
    decreases k,
{
    if k == 0 {
        lemma_next_then_previous(x);
        let e = next_day(x)->0;
        assert(shifted_date(e, 0) == Some(e));
    } else {
        let e = next_day(x)->0;
        lemma_next_then_previous(x);
        lemma_shift_forward_one_more(e, k - 1);
    }
}

/// A moved date is valid.
proof fn lemma_shift_valid(d: CalendarDate, n: int)
    requires
        shifted_date(d, n) is Some,
    ensures
        valid_date(shifted_date(d, n)->0),
    decreases (if n < 0 {
        -n
    } else {
        n
    }),
{
    if n > 0 {
        lemma_next_then_previous(d);
        lemma_shift_valid(next_day(d)->0, n - 1);
    } else if n < 0 {
        lemma_previous_then_next(d);
        lemma_shift_valid(previous_day(d)->0, n + 1);
    }
}

/// Moving a date by `n` days and then by `-n` days gives it back, wherever the first
/// move stays within chrono's range.
pub proof fn lemma_shift_undone(d: CalendarDate, n: int)
    requires
        shifted_date(d, n) is Some,
    ensures
        shifted_date(shifted_date(d, n)->0, -n) == Some(d),
    decreases (if n < 0 {
        -n
    } else {
        n
    }),
{
    lemma_shift_valid(d, n);
    let x = shifted_date(d, n)->0;
    if n > 0 {
        let e = next_day(d)->0;
        lemma_next_then_previous(d);
        lemma_shift_undone(e, n - 1);
        lemma_shift_back_one_more(x, -(n - 1));
    } else if n < 0 {
        let e = previous_day(d)->0;
        lemma_previous_then_next(d);
        lemma_shift_undone(e, n + 1);
        lemma_shift_forward_one_more(x, -(n + 1));
    }
}

/// Shifts a valid date by `days` days: `chrono::NaiveDate::checked_add_signed` with
/// `TimeDelta::days(days)`, which gives the date that many days later (earlier when
/// negative), or `None` outside chrono's range; the date is rebuilt from its plain values to
/// make the call.
#[verifier::external_body]
pub(crate) fn chrono_shift_date(d: CalendarDate, days: i64) -> (r: Option<CalendarDate>)
    requires
        valid_date(d),
        -1_000_000 <= days <= 1_000_000,
    ensures
        r == shifted_date(d, days as int),
        r matches Some(p) ==> valid_date(p),
{
    match chrono::NaiveDate::from_ymd_opt(d.0, d.1, d.2) {
        Some(date) => match date.checked_add_signed(chrono::TimeDelta::days(days)) {
            Some(moved) => Some((moved.year(), moved.month(), moved.day())),
            None => None,
        },
        None => None,
    }
}

/// Today's date in the machine's local time zone (`chrono::Local::now().date_naive()`).
/// It depends on the clock; all that is promised is that it is a valid date.
#[verifier::external_body]
pub(crate) fn local_today() -> (r: CalendarDate)
    ensures
        valid_date(r),
{
    let today = chrono::Local::now().date_naive();
    (today.year(), today.month(), today.day())
}

/// The `%Y-%m-%d` text of a date.
pub open spec fn date_text(d: CalendarDate) -> Seq<char> {
    year_text(d.0 as int) + seq!['-'] + padded_zeros(d.1 as nat, 2) + seq!['-'] + padded_zeros(
        d.2 as nat,
        2,
    )
}

/// Writes a date as `YYYY-MM-DD`, as chrono's `%Y-%m-%d` does.
pub fn format_date(d: CalendarDate) -> (s: String)
    requires
        valid_date(d),
    ensures
        s@ == date_text(d),
{
    let mut s = String::new();
    let y = d.0;
    if 0 <= y && y < 10000 {
        push_padded(&mut s, y as u32, 4);
    } else if y < 0 {
        s.append("-");
        push_padded(&mut s, (0 - y) as u32, 4);
    } else {
        s.append("+");
        push_padded(&mut s, y as u32, 4);
    }
    proof {
        reveal_strlit("-");
        reveal_strlit("+");
    }
    assert(s@ =~= year_text(d.0 as int));
    s.append("-");
    push_padded(&mut s, d.1, 2);
    s.append("-");
    push_padded(&mut s, d.2, 2);
    assert(s@ =~= date_text(d));
    s
}

} // verus!
