use chrono::{Datelike, Timelike};
use vstd::prelude::*;
use vstd::string::StringExecFns;

use crate::text::{decimal, decimal_string, digit_char};

verus! {

/// A calendar date and wall-clock time as chrono reports it:
/// (year, month, day, hour, minute, second, nanosecond).
pub type DateTimeParts = (i32, u32, u32, u32, u32, u32, u32);

/// What `chrono::NaiveDateTime::parse_from_str(text, fmt)` yields, as parts.
pub uninterp spec fn parsed_datetime(text: Seq<char>, fmt: Seq<char>) -> Option<DateTimeParts>;

/// The range of every field of a chrono date and time.
pub open spec fn parts_in_range(t: DateTimeParts) -> bool {
    &&& -262143 <= t.0 <= 262142
    &&& 1 <= t.1 <= 12
    &&& 1 <= t.2 <= 31
    &&& t.3 <= 23
    &&& t.4 <= 59
    &&& t.5 <= 59
    &&& t.6 < 2_000_000_000
}

/// Parses `text` with the chrono format `fmt` into a naive date and time
/// (`chrono::NaiveDateTime::parse_from_str`), reading back its fields.
/// The result is named; of it the contract states only chrono's documented field ranges.
#[verifier::external_body]
fn chrono_parse_datetime(text: &str, fmt: &str) -> (r: Option<DateTimeParts>)
    ensures
        r == parsed_datetime(text@, fmt@),
        r matches Some(t) ==> parts_in_range(t),
{
    match chrono::NaiveDateTime::parse_from_str(text, fmt) {
        Ok(dt) => Some((dt.year(), dt.month(), dt.day(), dt.hour(), dt.minute(), dt.second(), dt.nanosecond())),
        Err(_) => None,
    }
}

/// The storage format of timestamps.
pub open spec fn timestamp_format() -> Seq<char> {
    "%Y-%m-%d %H:%M:%S"@
}

/// `text` read as a `YYYY-MM-DD HH:MM:SS` timestamp, as chrono reads it.
pub open spec fn parse_timestamp_spec(text: Seq<char>) -> Option<DateTimeParts> {
    parsed_datetime(text, timestamp_format())
}

/// Reads a `YYYY-MM-DD HH:MM:SS` timestamp with chrono.
pub fn parse_timestamp(text: &str) -> (r: Option<DateTimeParts>)
    ensures
        r == parse_timestamp_spec(text@),
        r matches Some(t) ==> parts_in_range(t),
{
    chrono_parse_datetime(text, "%Y-%m-%d %H:%M:%S")
}

/// `n` in decimal, zero-padded on the left to `width` characters at least.
pub open spec fn padded_zeros(n: nat, width: nat) -> Seq<char>
    decreases width,
{
    if decimal(n).len() >= width {
        decimal(n)
    } else if width == 0 {
        decimal(n)
    } else {
        seq!['0'] + padded_zeros(n, (width - 1) as nat)
    }
}

/// The `%Y` text of a year: four digits at least, with a sign outside 0..=9999.
pub open spec fn year_text(y: int) -> Seq<char> {
    if 0 <= y < 10000 {
        padded_zeros(y as nat, 4)
    } else if y < 0 {
        seq!['-'] + padded_zeros((-y) as nat, 4)
    } else {
        seq!['+'] + padded_zeros(y as nat, 4)
    }
}

/// The `%Y-%m-%d %H:%M:%S` text of a date and time; a leap second shows as 60.
pub open spec fn timestamp_text(t: DateTimeParts) -> Seq<char> {
    year_text(t.0 as int) + seq!['-'] + padded_zeros(t.1 as nat, 2) + seq!['-'] + padded_zeros(t.2 as nat, 2)
        + seq![' '] + padded_zeros(t.3 as nat, 2) + seq![':'] + padded_zeros(t.4 as nat, 2) + seq![':']
        + padded_zeros((t.5 + t.6 / 1_000_000_000) as nat, 2)
}

/// `a` comes strictly before `b` in time.
pub open spec fn earlier(a: DateTimeParts, b: DateTimeParts) -> bool {
    ||| a.0 < b.0
    ||| a.0 == b.0 && a.1 < b.1
    ||| a.0 == b.0 && a.1 == b.1 && a.2 < b.2
    ||| a.0 == b.0 && a.1 == b.1 && a.2 == b.2 && a.3 < b.3
    ||| a.0 == b.0 && a.1 == b.1 && a.2 == b.2 && a.3 == b.3 && a.4 < b.4
    ||| a.0 == b.0 && a.1 == b.1 && a.2 == b.2 && a.3 == b.3 && a.4 == b.4 && a.5 < b.5
    ||| a.0 == b.0 && a.1 == b.1 && a.2 == b.2 && a.3 == b.3 && a.4 == b.4 && a.5 == b.5 && a.6 < b.6
}

/// Whether `a` comes strictly before `b` (the order of chrono's naive date-times).
pub fn is_earlier(a: DateTimeParts, b: DateTimeParts) -> (r: bool)
    ensures
        r == earlier(a, b),
{
    if a.0 != b.0 {
        return a.0 < b.0;
    }
    if a.1 != b.1 {
        return a.1 < b.1;
    }
    if a.2 != b.2 {
        return a.2 < b.2;
    }
    if a.3 != b.3 {
        return a.3 < b.3;
    }
    if a.4 != b.4 {
        return a.4 < b.4;
    }
    if a.5 != b.5 {
        return a.5 < b.5;
    }
    a.6 < b.6
}

/// Appends `n` zero-padded to `width` digits.
pub(crate) fn push_padded(s: &mut String, n: u32, width: usize)
    requires
        width <= 4,
    ensures
        final(s)@ == old(s)@ + padded_zeros(n as nat, width as nat),
    decreases width,
{
    let digits = decimal_string(n as usize);
    if digits.as_str().unicode_len() >= width || width == 0 {
        s.append(digits.as_str());
    } else {
        s.append("0");
        proof {
            reveal_strlit("0");
        }
        let ghost mid = s@;
        push_padded(s, n, width - 1);
        assert(final(s)@ =~= old(s)@ + padded_zeros(n as nat, width as nat));
    }
}

/// Writes a date and time as `YYYY-MM-DD HH:MM:SS`, as chrono's `%Y-%m-%d %H:%M:%S` does.
pub fn format_timestamp(t: DateTimeParts) -> (s: String)
    requires
        parts_in_range(t),
    ensures
        s@ == timestamp_text(t),
{
    let mut s = String::new();
    let y = t.0;
    if 0 <= y && y < 10000 {
        push_padded(&mut s, y as u32, 4);
    } else if y < 0 {
        s.append("-");
        push_padded(&mut s, (0 - y) as u32, 4);
    } else {
        s.append("+");
        push_padded(&mut s, y as u32, 4);
    }
    proof {
        reveal_strlit("-");
        reveal_strlit("+");
        reveal_strlit(":");
        reveal_strlit(" ");
    }
    assert(s@ =~= year_text(t.0 as int));
    s.append("-");
    push_padded(&mut s, t.1, 2);
    s.append("-");
    push_padded(&mut s, t.2, 2);
    s.append(" ");
    push_padded(&mut s, t.3, 2);
    s.append(":");
    push_padded(&mut s, t.4, 2);
    s.append(":");
    let sec = t.5 + t.6 / 1_000_000_000;
    push_padded(&mut s, sec, 2);
    assert(s@ =~= timestamp_text(t));
    s
}

} // verus!
