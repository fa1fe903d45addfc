use vstd::prelude::*;
use vstd::string::StringExecFns;

use crate::cli::error::{cli_error, CliError};
use crate::text::{chars_of, is_blank, string_from_range, trim, trim_str};

verus! {

/// One window of a weekday, as `HH:MM` texts.
#[derive(Debug)]
pub struct TimeWindow {
    pub start: String,
    pub end: String,
}

/// The windows of one weekday.
#[derive(Debug)]
pub struct DayWindows {
    pub day: String,
    pub windows: Vec<TimeWindow>,
}

/// Weekly availability: the windows of each weekday, the weekday names in ascending
/// text order (character by character, so `fri` comes before `mon`), each name once.
#[derive(Debug)]
pub struct Availability {
    pub days: Vec<DayWindows>,
}

/// Model of a window: (start, end).
pub type WindowView = (Seq<char>, Seq<char>);

/// Model of an availability: (weekday, windows) pairs in stored order.
pub type AvailabilityView = Seq<(Seq<char>, Seq<WindowView>)>;

impl View for TimeWindow {
    type V = WindowView;

    open spec fn view(&self) -> WindowView {
        (self.start@, self.end@)
    }
}

/// Models of a sequence of windows.
pub open spec fn windows_view(ws: Seq<TimeWindow>) -> Seq<WindowView> {
    ws.map_values(|w: TimeWindow| w@)
}

impl View for DayWindows {
    type V = (Seq<char>, Seq<WindowView>);

    open spec fn view(&self) -> (Seq<char>, Seq<WindowView>) {
        (self.day@, windows_view(self.windows@))
    }
}

/// Models of a sequence of weekdays.
pub open spec fn days_view(ds: Seq<DayWindows>) -> AvailabilityView {
    ds.map_values(|d: DayWindows| d@)
}

impl View for Availability {
    type V = AvailabilityView;

    open spec fn view(&self) -> AvailabilityView {
        days_view(self.days@)
    }
}

/// `a` sorts strictly before `b`, comparing characters by code point (the order of
/// `String` keys in a `BTreeMap`).
pub open spec fn text_lt(a: Seq<char>, b: Seq<char>) -> bool
    decreases a.len(),
{
    if a.len() == 0 {
        b.len() > 0
    } else if b.len() == 0 {
        false
    } else if a[0] != b[0] {
        (a[0] as u32) < (b[0] as u32)
    } else {
        text_lt(a.drop_first(), b.drop_first())
    }
}

/// Weekday names in strictly ascending text order.
pub open spec fn sorted_days(m: AvailabilityView) -> bool {
    forall|i: int, j: int| 0 <= i < j < m.len() ==> text_lt(#[trigger] m[i].0, #[trigger] m[j].0)
}

/// `m` with window `w` added to weekday `k`: appended to its windows when the weekday
/// is there, else a new weekday placed before the first larger one.
pub open spec fn avail_insert(m: AvailabilityView, k: Seq<char>, w: WindowView) -> AvailabilityView
    decreases m.len(),
{
    if m.len() == 0 {
        seq![(k, seq![w])]
    } else if m[0].0 == k {
        seq![(k, m[0].1.push(w))] + m.drop_first()
    } else if text_lt(k, m[0].0) {
        seq![(k, seq![w])] + m
    } else {
        seq![m[0]] + avail_insert(m.drop_first(), k, w)
    }
}

proof fn lemma_text_lt_irreflexive(a: Seq<char>)
    ensures
        !text_lt(a, a),
    decreases a.len(),
{
    if a.len() > 0 {
        lemma_text_lt_irreflexive(a.drop_first());
    }
}

proof fn lemma_text_lt_total(a: Seq<char>, b: Seq<char>)
    ensures
        a != b ==> text_lt(a, b) || text_lt(b, a),
        !(text_lt(a, b) && text_lt(b, a)),
    decreases a.len(),
{
    if a.len() > 0 && b.len() > 0 && a[0] == b[0] {
        lemma_text_lt_total(a.drop_first(), b.drop_first());
        if a != b {
            assert(a.drop_first() != b.drop_first()) by {
                if a.drop_first() == b.drop_first() {
                    assert(a =~= seq![a[0]] + a.drop_first());
                    assert(b =~= seq![b[0]] + b.drop_first());
                }
            }
        }
    } else if a.len() == 0 && b.len() == 0 {
        assert(a =~= b);
    } else if a.len() > 0 && b.len() > 0 {
        vstd::utf8::char_u32_cast(a[0], a[0] as u32);
        vstd::utf8::char_u32_cast(b[0], b[0] as u32);
        assert((a[0] as u32) != (b[0] as u32));
    }
}

proof fn lemma_text_lt_trans(a: Seq<char>, b: Seq<char>, c: Seq<char>)
    requires
        text_lt(a, b),
        text_lt(b, c),
    ensures
        text_lt(a, c),
    decreases a.len(),
{
    if a.len() > 0 && b.len() > 0 && c.len() > 0 && a[0] == b[0] && b[0] == c[0] {
        lemma_text_lt_trans(a.drop_first(), b.drop_first(), c.drop_first());
    }
}

/// Whether `a` sorts strictly before `b`.
pub fn text_less(a: &Vec<char>, b: &Vec<char>) -> (r: bool)
    ensures
        r == text_lt(a@, b@),
{
    let mut i: usize = 0;
    assert(a@.subrange(0, a@.len() as int) =~= a@);
    assert(b@.subrange(0, b@.len() as int) =~= b@);
    while i < a.len() && i < b.len() && a[i] == b[i]
        invariant
            i <= a.len(),
            i <= b.len(),
            text_lt(a@, b@) == text_lt(a@.subrange(i as int, a@.len() as int), b@.subrange(i as int, b@.len() as int)),
        decreases a.len() - i,
    {
        let ghost sa = a@.subrange(i as int, a@.len() as int);
        let ghost sb = b@.subrange(i as int, b@.len() as int);
        assert(sa.drop_first() =~= a@.subrange(i + 1, a@.len() as int));
        assert(sb.drop_first() =~= b@.subrange(i + 1, b@.len() as int));
        i = i + 1;
    }
    if i == a.len() {
        i < b.len()
    } else if i == b.len() {
        false
    } else {
        (a[i] as u32) < (b[i] as u32)
    }
}

proof fn lemma_insert_after_smaller(m: AvailabilityView, k: Seq<char>, w: WindowView, i: int)
    requires
        0 <= i <= m.len(),
        forall|j: int| 0 <= j < i ==> text_lt(#[trigger] m[j].0, k),
    ensures
        avail_insert(m, k, w) == m.subrange(0, i) + avail_insert(m.subrange(i, m.len() as int), k, w),
    decreases i,
{
    if i == 0 {
        assert(m.subrange(0, 0) + avail_insert(m.subrange(0, m.len() as int), k, w) =~= avail_insert(m, k, w)) by {
            assert(m.subrange(0, m.len() as int) =~= m);
        }
    } else {
        lemma_text_lt_irreflexive(k);
        lemma_text_lt_total(k, m[0].0);
        assert(m[0].0 != k);
        assert(!text_lt(k, m[0].0));
        let t = m.drop_first();
        assert forall|j: int| 0 <= j < i - 1 implies text_lt(#[trigger] t[j].0, k) by {
            assert(t[j] == m[j + 1]);
        }
        lemma_insert_after_smaller(t, k, w, i - 1);
        assert(t.subrange(0, i - 1) =~= m.subrange(1, i));
        assert(t.subrange(i - 1, t.len() as int) =~= m.subrange(i, m.len() as int));
        assert(m.subrange(0, i) =~= seq![m[0]] + m.subrange(1, i));
    }
}

/// Adding a window keeps the weekdays of a sorted availability in strictly ascending
/// order, and introduces no weekday but the one added to.
pub proof fn lemma_insert_keeps_sorted(m: AvailabilityView, k: Seq<char>, w: WindowView)
    requires
        sorted_days(m),
    ensures
        sorted_days(avail_insert(m, k, w)),
        forall|i: int|
            0 <= i < avail_insert(m, k, w).len() ==> #[trigger] avail_insert(m, k, w)[i].0 == k
                || exists|j: int| 0 <= j < m.len() && m[j].0 == avail_insert(m, k, w)[i].0,
    decreases m.len(),
{
    let r = avail_insert(m, k, w);
    if m.len() == 0 {
    } else if m[0].0 == k {
        assert forall|i: int, j: int| 0 <= i < j < r.len() implies text_lt(#[trigger] r[i].0, #[trigger] r[j].0) by {
            assert(r[i].0 == m[i].0 && r[j].0 == m[j].0);
        }
        assert forall|i: int| 0 <= i < r.len() implies #[trigger] r[i].0 == k
            || exists|j: int| 0 <= j < m.len() && m[j].0 == r[i].0 by {
            assert(r[i].0 == m[i].0);
        }
    } else if text_lt(k, m[0].0) {
        assert forall|i: int, j: int| 0 <= i < j < r.len() implies text_lt(#[trigger] r[i].0, #[trigger] r[j].0) by {
            if i == 0 {
                if j > 1 {
                    lemma_text_lt_trans(k, m[0].0, m[j - 1].0);
                }
            } else {
                assert(r[i] == m[i - 1] && r[j] == m[j - 1]);
            }
        }
        assert forall|i: int| 0 <= i < r.len() implies #[trigger] r[i].0 == k
            || exists|j: int| 0 <= j < m.len() && m[j].0 == r[i].0 by {
            if i > 0 {
                assert(r[i] == m[i - 1]);
            }
        }
    } else {
        let t = m.drop_first();
        assert(sorted_days(t)) by {
            assert forall|i: int, j: int| 0 <= i < j < t.len() implies text_lt(#[trigger] t[i].0, #[trigger] t[j].0) by {
                assert(t[i] == m[i + 1] && t[j] == m[j + 1]);
            }
        }
        lemma_insert_keeps_sorted(t, k, w);
        let u = avail_insert(t, k, w);
        lemma_text_lt_total(k, m[0].0);
        assert(text_lt(m[0].0, k));
        assert forall|i: int| 0 <= i < u.len() implies text_lt(m[0].0, #[trigger] u[i].0) by {
            if u[i].0 != k {
                let j = choose|j: int| 0 <= j < t.len() && t[j].0 == u[i].0;
                assert(t[j] == m[j + 1]);
            }
        }
        assert forall|i: int, j: int| 0 <= i < j < r.len() implies text_lt(#[trigger] r[i].0, #[trigger] r[j].0) by {
            if i == 0 {
                assert(r[j] == u[j - 1]);
            } else {
                assert(r[i] == u[i - 1] && r[j] == u[j - 1]);
            }
        }
        assert forall|i: int| 0 <= i < r.len() implies #[trigger] r[i].0 == k
            || exists|j: int| 0 <= j < m.len() && m[j].0 == r[i].0 by {
            if i == 0 {
                assert(m[0].0 == r[0].0);
            } else {
                assert(r[i] == u[i - 1]);
                if u[i - 1].0 != k {
                    let j = choose|j: int| 0 <= j < t.len() && t[j].0 == u[i - 1].0;
                    assert(m[j + 1].0 == r[i].0);
                }
            }
        }
    }
}

/// Adds window `window` to weekday `day`, keeping weekdays in order.
pub fn insert_window(av: &mut Availability, day: String, window: TimeWindow)
    ensures
        final(av)@ == avail_insert(old(av)@, day@, window@),
{
    let ghost m = av@;
    let key = chars_of(day.as_str());
    let n = av.days.len();
    let mut i: usize = 0;
    while i < n && text_less(&chars_of(av.days[i].day.as_str()), &key)
        invariant
            n == av.days.len(),
            m == av@,
            key@ == day@,
            i <= n,
            forall|j: int| 0 <= j < i ==> text_lt(#[trigger] m[j].0, day@),
        decreases n - i,
    {
        i = i + 1;
    }
    proof {
        lemma_insert_after_smaller(m, day@, window@, i as int);
    }
    let ghost rest = m.subrange(i as int, m.len() as int);
    if i < n && av.days[i].day == day {
        assert(rest[0] == m[i as int]);
        let mut entry = av.days.remove(i);
        let ghost old_windows = windows_view(entry.windows@);
        entry.windows.push(window);
        assert(windows_view(entry.windows@) =~= old_windows.push(window@));
        av.days.insert(i, entry);
        assert(rest.drop_first() =~= m.subrange(i + 1, m.len() as int));
        assert(av@ =~= m.subrange(0, i as int) + (seq![(day@, old_windows.push(window@))] + rest.drop_first()));
    } else {
        if i < n {
            proof {
                assert(rest[0] == m[i as int]);
                lemma_text_lt_total(day@, m[i as int].0);
                assert(text_lt(day@, rest[0].0));
            }
        }
        let entry = DayWindows { day, windows: vec![window] };
        assert(entry@.1 =~= seq![window@]);
        av.days.insert(i, entry);
        assert(av@ =~= m.subrange(0, i as int) + (seq![(day@, seq![window@])] + rest));
    }
}

/// Position of the first `c` in `s`; `s.len()` when there is none.
pub open spec fn first_index(s: Seq<char>, c: char) -> int
    decreases s.len(),
{
    if s.len() == 0 {
        0
    } else if s[0] == c {
        0
    } else {
        1 + first_index(s.drop_first(), c)
    }
}

proof fn lemma_first_index_bounds(s: Seq<char>, c: char)
    ensures
        0 <= first_index(s, c) <= s.len(),
        first_index(s, c) < s.len() ==> s[first_index(s, c)] == c,
        forall|j: int| 0 <= j < first_index(s, c) ==> s[j] != c,
    decreases s.len(),
{
    if s.len() > 0 && s[0] != c {
        lemma_first_index_bounds(s.drop_first(), c);
        let t = s.drop_first();
        assert forall|j: int| 0 <= j < first_index(s, c) implies s[j] != c by {
            if j > 0 {
                assert(s[j] == t[j - 1]);
            }
        }
    }
}

proof fn lemma_first_index_from(s: Seq<char>, c: char, i: int)
    requires
        0 <= i <= s.len(),
        forall|j: int| 0 <= j < i ==> s[j] != c,
    ensures
        first_index(s, c) == i + first_index(s.subrange(i, s.len() as int), c),
    decreases i,
{
    if i == 0 {
        assert(s.subrange(0, s.len() as int) =~= s);
    } else {
        let t = s.drop_first();
        assert forall|j: int| 0 <= j < i - 1 implies t[j] != c by {
            assert(t[j] == s[j + 1]);
        }
        lemma_first_index_from(t, c, i - 1);
        assert(t.subrange(i - 1, t.len() as int) =~= s.subrange(i, s.len() as int));
    }
}

/// `s` split around its first `c` (`str::split_once`).
pub open spec fn split_once(s: Seq<char>, c: char) -> Option<(Seq<char>, Seq<char>)> {
    let i = first_index(s, c);
    if i >= s.len() {
        None
    } else {
        Some((s.subrange(0, i), s.subrange(i + 1, s.len() as int)))
    }
}

/// Splits `s` around its first `c`.
pub fn split_once_char(s: &str, c: char) -> (r: Option<(String, String)>)
    ensures
        match split_once(s@, c) {
            Some((a, b)) => r matches Some((x, y)) && x@ == a && y@ == b,
            None => r is None,
        },
{
    let chars = chars_of(s);
    let mut i: usize = 0;
    while i < chars.len() && chars[i] != c
        invariant
            chars@ == s@,
            i <= chars.len(),
            forall|j: int| 0 <= j < i ==> chars@[j] != c,
        decreases chars.len() - i,
    {
        i = i + 1;
    }
    proof {
        lemma_first_index_from(s@, c, i as int);
        let rest = s@.subrange(i as int, s@.len() as int);
        if i < chars.len() {
            assert(rest[0] == c);
        }
    }
    if i == chars.len() {
        return None;
    }
    Some((string_from_range(&chars, 0, i), string_from_range(&chars, i + 1, chars.len())))
}

/// ASCII upper-case letters lowered, other characters kept.
pub open spec fn lower_char(c: char) -> char {
    if 'A' <= c && c <= 'Z' {
        ((c as u32) + 32) as char
    } else {
        c
    }
}

/// `s` with ASCII letters lowered (`str::to_ascii_lowercase`).
pub open spec fn ascii_lower(s: Seq<char>) -> Seq<char> {
    s.map_values(|c: char| lower_char(c))
}

fn lower_one(c: char) -> (r: char)
    ensures
        r == lower_char(c),
{
    if 'A' <= c && c <= 'Z' {
        ((c as u8) + 32) as char
    } else {
        c
    }
}

/// Lowers the ASCII letters of `s`.
pub fn to_ascii_lowercase(s: &str) -> (r: String)
    ensures
        r@ == ascii_lower(s@),
{
    let chars = chars_of(s);
    let mut lowered: Vec<char> = Vec::new();
    let mut i: usize = 0;
    while i < chars.len()
        invariant
            chars@ == s@,
            i <= chars.len(),
            lowered@ == ascii_lower(s@.subrange(0, i as int)),
        decreases chars.len() - i,
    {
        lowered.push(lower_one(chars[i]));
        assert(ascii_lower(s@.subrange(0, i + 1)) =~= ascii_lower(s@.subrange(0, i as int)).push(lower_char(s@[i as int])));
        i = i + 1;
    }
    assert(s@.subrange(0, s@.len() as int) =~= s@);
    string_from_range(&lowered, 0, lowered.len())
}

/// One `DAY=HH:MM-HH:MM` argument read as (lowered weekday, window).
pub open spec fn availability_arg(v: Seq<char>) -> Option<(Seq<char>, WindowView)> {
    match split_once(v, '=') {
        None => None,
        Some((day, window)) => match split_once(window, '-') {
            None => None,
            Some((start, end)) => Some((ascii_lower(day), (start, end))),
        },
    }
}

/// Message of an `--availability` argument that cannot be read.
pub open spec fn availability_arg_message(v: Seq<char>) -> Seq<char> {
    "invalid --availability '"@ + v + "'; expected DAY=HH:MM-HH:MM"@
}

/// The availability that a list of `--availability` arguments describes, or the
/// message about the first argument that cannot be read.
pub open spec fn availability_args(values: Seq<Seq<char>>) -> Result<AvailabilityView, Seq<char>>
    decreases values.len(),
{
    if values.len() == 0 {
        Ok(Seq::empty())
    } else {
        match availability_args(values.drop_last()) {
            Err(e) => Err(e),
            Ok(m) => match availability_arg(values.last()) {
                None => Err(availability_arg_message(values.last())),
                Some((day, w)) => Ok(avail_insert(m, day, w)),
            },
        }
    }
}

/// The texts of a sequence of strings.
pub open spec fn texts(v: Seq<String>) -> Seq<Seq<char>> {
    v.map_values(|s: String| s@)
}

proof fn lemma_args_error_persists(all: Seq<Seq<char>>, k: int, n: int)
    requires
        0 <= k <= n <= all.len(),
        availability_args(all.subrange(0, k)) is Err,
    ensures
        availability_args(all.subrange(0, n)) == availability_args(all.subrange(0, k)),
    decreases n - k,
{
    if n > k {
        lemma_args_error_persists(all, k, n - 1);
        assert(all.subrange(0, n).drop_last() =~= all.subrange(0, n - 1));
    }
}

/// Read `--availability` arguments list each weekday once, in ascending order,
/// as a `BTreeMap` keyed by weekday would.
pub proof fn lemma_availability_args_sorted(values: Seq<Seq<char>>)
    ensures
        availability_args(values) matches Ok(m) ==> sorted_days(m),
    decreases values.len(),
{
    if values.len() > 0 {
        lemma_availability_args_sorted(values.drop_last());
        if let Ok(m) = availability_args(values.drop_last()) {
            if let Some((day, w)) = availability_arg(values.last()) {
                lemma_insert_keeps_sorted(m, day, w);
            }
        }
    }
}

/// Reads the `--availability DAY=HH:MM-HH:MM` arguments of `planner settings update`;
/// none means the availability is left as it is.
pub fn parse_availability_args(values: Vec<String>) -> (r: Result<Option<Availability>, CliError>)
    ensures
        values.len() == 0 ==> r is Ok && r->Ok_0 is None,
        values.len() > 0 ==> match availability_args(texts(values@)) {
            Ok(m) => r is Ok && r->Ok_0 is Some && r->Ok_0->0@ == m,
            Err(msg) => r is Err && r->Err_0@ == cli_error("invalid_arguments"@, msg),
        },
{
    if values.len() == 0 {
        return Ok(None);
    }
    let ghost all = texts(values@);
    let mut av = Availability { days: Vec::new() };
    let mut i: usize = 0;
    assert(av@ =~= Seq::<(Seq<char>, Seq<WindowView>)>::empty());
    while i < values.len()
        invariant
            all == texts(values@),
            i <= values.len(),
            availability_args(all.subrange(0, i as int)) == Ok::<AvailabilityView, Seq<char>>(av@),
        decreases values.len() - i,
    {
        let value = &values[i];
        let ghost prefix = all.subrange(0, i + 1);
        assert(prefix.drop_last() =~= all.subrange(0, i as int));
        assert(prefix.last() == value@);
        let parts = split_once_char(value.as_str(), '=');
        let (day, window) = match parts {
            Some(p) => p,
            None => {
                proof {
                    lemma_args_error_persists(all, i + 1, all.len() as int);
                    assert(all.subrange(0, all.len() as int) =~= all);
                }
                return Err(CliError::invalid_arguments(
                    String::from_str("invalid --availability '").concat(value.as_str()).concat(
                        "'; expected DAY=HH:MM-HH:MM",
                    ),
                ));
            },
        };
        let (start, end) = match split_once_char(window.as_str(), '-') {
            Some(p) => p,
            None => {
                proof {
                    lemma_args_error_persists(all, i + 1, all.len() as int);
                    assert(all.subrange(0, all.len() as int) =~= all);
                }
                return Err(CliError::invalid_arguments(
                    String::from_str("invalid --availability '").concat(value.as_str()).concat(
                        "'; expected DAY=HH:MM-HH:MM",
                    ),
                ));
            },
        };
        let weekday = to_ascii_lowercase(day.as_str());
        insert_window(&mut av, weekday, TimeWindow { start, end });
        i = i + 1;
    }
    assert(all.subrange(0, values.len() as int) =~= all);
    Ok(Some(av))
}

/// The `day=start-end` text of one window.
pub open spec fn window_text(day: Seq<char>, w: WindowView) -> Seq<char> {
    day + "="@ + w.0 + "-"@ + w.1
}

/// The `day=start-end` texts of one weekday's windows.
pub open spec fn day_texts(d: (Seq<char>, Seq<WindowView>)) -> Seq<Seq<char>> {
    d.1.map_values(|w: WindowView| window_text(d.0, w))
}

/// The `day=start-end` texts of every window, weekday by weekday.
pub open spec fn all_window_texts(m: AvailabilityView) -> Seq<Seq<char>>
    decreases m.len(),
{
    if m.len() == 0 {
        Seq::empty()
    } else {
        all_window_texts(m.drop_last()) + day_texts(m.last())
    }
}

/// `parts` joined with `sep` between them.
pub open spec fn join(parts: Seq<Seq<char>>, sep: Seq<char>) -> Seq<char>
    decreases parts.len(),
{
    if parts.len() == 0 {
        Seq::empty()
    } else if parts.len() == 1 {
        parts[0]
    } else {
        join(parts.drop_last(), sep) + sep + parts.last()
    }
}

/// Writes an availability as `day=HH:MM-HH:MM` windows separated by `, `.
pub fn availability_to_specs(availability: &Availability) -> (s: String)
    ensures
        s@ == join(all_window_texts(availability@), ", "@),
{
    let ghost m = availability@;
    let mut parts: Vec<String> = Vec::new();
    let mut i: usize = 0;
    assert(m.subrange(0, 0) =~= Seq::<(Seq<char>, Seq<WindowView>)>::empty());
    assert(texts(parts@) =~= all_window_texts(m.subrange(0, 0)));
    while i < availability.days.len()
        invariant
            m == availability@,
            i <= availability.days.len(),
            texts(parts@) == all_window_texts(m.subrange(0, i as int)),
        decreases availability.days.len() - i,
    {
        let entry = &availability.days[i];
        let ghost d = m[i as int];
        assert(d == entry@);
        let ghost base = texts(parts@);
        let mut j: usize = 0;
        while j < entry.windows.len()
            invariant
                d == entry@,
                j <= entry.windows.len(),
                texts(parts@) == base + day_texts(d).take(j as int),
            decreases entry.windows.len() - j,
        {
            let w = &entry.windows[j];
            let mut text = entry.day.clone();
            text.append("=");
            text.append(w.start.as_str());
            text.append("-");
            text.append(w.end.as_str());
            proof {
                reveal_strlit("=");
                reveal_strlit("-");
                assert(d.1[j as int] == w@);
                assert(text@ =~= window_text(d.0, d.1[j as int]));
            }
            let ghost before = texts(parts@);
            parts.push(text);
            assert(texts(parts@) =~= before.push(text@));
            assert(day_texts(d).take(j + 1) =~= day_texts(d).take(j as int).push(day_texts(d)[j as int]));
            j = j + 1;
        }
        assert(day_texts(d).take(entry.windows.len() as int) =~= day_texts(d));
        assert(m.subrange(0, i + 1).drop_last() =~= m.subrange(0, i as int));
        i = i + 1;
    }
    assert(m.subrange(0, availability.days.len() as int) =~= m);
    join_strings(&parts, ", ")
}

/// Joins strings with `sep` between them.
pub fn join_strings(parts: &Vec<String>, sep: &str) -> (s: String)
    ensures
        s@ == join(texts(parts@), sep@),
{
    let ghost all = texts(parts@);
    let mut out = String::new();
    let mut i: usize = 0;
    assert(all.subrange(0, 0) =~= Seq::<Seq<char>>::empty());
    while i < parts.len()
        invariant
            all == texts(parts@),
            i <= parts.len(),
            out@ == join(all.subrange(0, i as int), sep@),
        decreases parts.len() - i,
    {
        let ghost sub = all.subrange(0, i + 1);
        assert(sub.drop_last() =~= all.subrange(0, i as int));
        assert(sub.last() == parts@[i as int]@);
        if i > 0 {
            out.append(sep);
        } else {
            assert(sub =~= seq![parts@[0]@]);
        }
        out.append(parts[i].as_str());
        i = i + 1;
    }
    assert(all.subrange(0, parts.len() as int) =~= all);
    out
}

/// `s` cut at every `c`.
pub open spec fn split_on(s: Seq<char>, c: char) -> Seq<Seq<char>>
    decreases s.len(),
{
    let i = first_index(s, c);
    if i >= s.len() || i < 0 {
        seq![s]
    } else {
        seq![s.subrange(0, i)] + split_on(s.subrange(i + 1, s.len() as int), c)
    }
}

/// Cuts `s` at every `c` (`str::split`).
pub fn split_text(s: &str, c: char) -> (r: Vec<String>)
    ensures
        texts(r@) == split_on(s@, c),
{
    let chars = chars_of(s);
    let mut out: Vec<String> = Vec::new();
    let mut start: usize = 0;
    let mut i: usize = 0;
    proof {
        assert(s@.subrange(0, s@.len() as int) =~= s@);
    }
    while i < chars.len()
        invariant
            chars@ == s@,
            start <= i <= chars.len(),
            forall|j: int| start <= j < i ==> chars@[j] != c,
            texts(out@) + split_on(s@.subrange(start as int, s@.len() as int), c) == split_on(s@, c),
        decreases chars.len() - i,
    {
        if chars[i] == c {
            let ghost rest = s@.subrange(start as int, s@.len() as int);
            proof {
                assert forall|j: int| 0 <= j < i - start implies rest[j] != c by {
                    assert(rest[j] == chars@[start + j]);
                }
                lemma_first_index_from(rest, c, (i - start) as int);
                let tail = rest.subrange((i - start) as int, rest.len() as int);
                assert(tail[0] == c);
                assert(first_index(rest, c) == i - start);
                assert(rest.subrange(0, (i - start) as int) =~= chars@.subrange(start as int, i as int));
                assert(rest.subrange((i - start) + 1, rest.len() as int) =~= s@.subrange(i + 1, s@.len() as int));
            }
            let seg = string_from_range(&chars, start, i);
            let ghost before = texts(out@);
            out.push(seg);
            assert(texts(out@) =~= before.push(seg@));
            assert(texts(out@) + split_on(s@.subrange(i + 1, s@.len() as int), c) =~= before + split_on(rest, c));
            start = i + 1;
        }
        i = i + 1;
    }
    let ghost rest = s@.subrange(start as int, s@.len() as int);
    proof {
        assert forall|j: int| 0 <= j < rest.len() implies rest[j] != c by {
            assert(rest[j] == chars@[start + j]);
        }
        lemma_first_index_from(rest, c, rest.len() as int);
        assert(rest.subrange(rest.len() as int, rest.len() as int) =~= Seq::<char>::empty());
    }
    let seg = string_from_range(&chars, start, chars.len());
    let ghost before = texts(out@);
    out.push(seg);
    assert(texts(out@) =~= before.push(seg@));
    assert(split_on(rest, c) =~= seq![rest]);
    out
}

/// One `day=HH:MM-HH:MM` window of the settings form read as (lowered weekday,
/// window), each part trimmed.
pub open spec fn form_window(t: Seq<char>) -> Option<(Seq<char>, WindowView)> {
    match split_once(t, '=') {
        None => None,
        Some((day, window)) => match split_once(window, '-') {
            None => None,
            Some((start, end)) => Some((ascii_lower(trim(day)), (trim(start), trim(end)))),
        },
    }
}

/// The availability that comma-separated form windows describe (blank pieces skipped),
/// or nothing when a piece cannot be read.
pub open spec fn form_availability(pieces: Seq<Seq<char>>) -> Option<AvailabilityView>
    decreases pieces.len(),
{
    if pieces.len() == 0 {
        Some(Seq::empty())
    } else {
        match form_availability(pieces.drop_last()) {
            None => None,
            Some(m) => {
                let t = trim(pieces.last());
                if t.len() == 0 {
                    Some(m)
                } else {
                    match form_window(t) {
                        None => None,
                        Some((day, w)) => Some(avail_insert(m, day, w)),
                    }
                }
            },
        }
    }
}

proof fn lemma_form_error_persists(all: Seq<Seq<char>>, k: int, n: int)
    requires
        0 <= k <= n <= all.len(),
        form_availability(all.subrange(0, k)) is None,
    ensures
        form_availability(all.subrange(0, n)) is None,
    decreases n - k,
{
    if n > k {
        lemma_form_error_persists(all, k, n - 1);
        assert(all.subrange(0, n).drop_last() =~= all.subrange(0, n - 1));
    }
}

/// Message of a settings-form availability that cannot be read.
pub open spec fn form_availability_message() -> Seq<char> {
    "Availability uses day=HH:MM-HH:MM, separated by commas."@
}

/// Reads the weekly availability of the planner settings form:
/// `day=HH:MM-HH:MM` windows separated by commas.
pub fn availability_from_specs(value: &str) -> (r: Result<Availability, String>)
    ensures
        match form_availability(split_on(value@, ',')) {
            Some(m) => r is Ok && r->Ok_0@ == m,
            None => r is Err && r->Err_0@ == form_availability_message(),
        },
{
    let pieces = split_text(value, ',');
    let ghost all = texts(pieces@);
    let mut av = Availability { days: Vec::new() };
    let mut i: usize = 0;
    assert(av@ =~= Seq::<(Seq<char>, Seq<WindowView>)>::empty());
    while i < pieces.len()
        invariant
            all == texts(pieces@),
            all == split_on(value@, ','),
            i <= pieces.len(),
            form_availability(all.subrange(0, i as int)) == Some(av@),
        decreases pieces.len() - i,
    {
        let ghost prefix = all.subrange(0, i + 1);
        assert(prefix.drop_last() =~= all.subrange(0, i as int));
        assert(prefix.last() == pieces@[i as int]@);
        let piece = trim_str(pieces[i].as_str());
        if !is_blank(piece.as_str()) {
            proof {
                crate::text::lemma_trim_idempotent(pieces@[i as int]@);
            }
            let (day, window) = match split_once_char(piece.as_str(), '=') {
                Some(p) => p,
                None => {
                    proof {
                        lemma_form_error_persists(all, i + 1, all.len() as int);
                        assert(all.subrange(0, all.len() as int) =~= all);
                    }
                    return Err(String::from_str("Availability uses day=HH:MM-HH:MM, separated by commas."));
                },
            };
            let (start, end) = match split_once_char(window.as_str(), '-') {
                Some(p) => p,
                None => {
                    proof {
                        lemma_form_error_persists(all, i + 1, all.len() as int);
                        assert(all.subrange(0, all.len() as int) =~= all);
                    }
                    return Err(String::from_str("Availability uses day=HH:MM-HH:MM, separated by commas."));
                },
            };
            let day = to_ascii_lowercase(trim_str(day.as_str()).as_str());
            insert_window(&mut av, day, TimeWindow { start: trim_str(start.as_str()), end: trim_str(end.as_str()) });
        } else {
            proof {
                crate::text::lemma_trim_idempotent(pieces@[i as int]@);
            }
        }
        i = i + 1;
    }
    assert(all.subrange(0, pieces.len() as int) =~= all);
    Ok(av)
}

/// A weekday name that reads back as itself: trimmed, in lower case, without `,` or `=`.
pub open spec fn clean_day(d: Seq<char>) -> bool {
    &&& trim(d) == d
    &&& ascii_lower(d) == d
    &&& !d.contains(',')
    &&& !d.contains('=')
}

/// A window that reads back as itself: both ends trimmed and without `,`, the start
/// without `-`.
pub open spec fn clean_window(w: WindowView) -> bool {
    &&& trim(w.0) == w.0
    &&& !w.0.contains(',')
    &&& !w.0.contains('-')
    &&& trim(w.1) == w.1
    &&& !w.1.contains(',')
}

/// The (weekday, window) pairs of one weekday.
spec fn day_pairs(d: (Seq<char>, Seq<WindowView>)) -> Seq<(Seq<char>, WindowView)> {
    d.1.map_values(|w: WindowView| (d.0, w))
}

/// The (weekday, window) pairs of every window, weekday by weekday.
spec fn all_pairs(m: AvailabilityView) -> Seq<(Seq<char>, WindowView)>
    decreases m.len(),
{
    if m.len() == 0 {
        Seq::empty()
    } else {
        all_pairs(m.drop_last()) + day_pairs(m.last())
    }
}

spec fn pair_text(p: (Seq<char>, WindowView)) -> Seq<char> {
    window_text(p.0, p.1)
}

spec fn pair_texts(ps: Seq<(Seq<char>, WindowView)>) -> Seq<Seq<char>> {
    ps.map_values(|p: (Seq<char>, WindowView)| pair_text(p))
}

/// The availability that adding the pairs one by one gives.
spec fn build(ps: Seq<(Seq<char>, WindowView)>) -> AvailabilityView
    decreases ps.len(),
{
    if ps.len() == 0 {
        Seq::empty()
    } else {
        avail_insert(build(ps.drop_last()), ps.last().0, ps.last().1)
    }
}

/// The pieces that splitting a `", "`-joined text on `,` gives: the first part as it
/// is, every later one behind a space.
spec fn spaced(t: Seq<Seq<char>>) -> Seq<Seq<char>>
    decreases t.len(),
{
    if t.len() <= 1 {
        t
    } else {
        spaced(t.drop_last()).push(seq![' '] + t.last())
    }
}

proof fn lemma_first_index_at(a: Seq<char>, c: char, b: Seq<char>)
    requires
        !a.contains(c),
    ensures
        first_index(a + seq![c] + b, c) == a.len(),
        first_index(a, c) == a.len(),
{
    let s = a + seq![c] + b;
    assert forall|j: int| 0 <= j < a.len() implies s[j] != c by {
        assert(s[j] == a[j]);
        if a[j] == c {
            assert(a.contains(c));
        }
    }
    assert forall|j: int| 0 <= j < a.len() implies a[j] != c by {
        if a[j] == c {
            assert(a.contains(c));
        }
    }
    lemma_first_index_from(s, c, a.len() as int);
    assert(s.subrange(a.len() as int, s.len() as int)[0] == c);
    lemma_first_index_from(a, c, a.len() as int);
}

proof fn lemma_split_once_at(a: Seq<char>, c: char, b: Seq<char>)
    requires
        !a.contains(c),
    ensures
        split_once(a + seq![c] + b, c) == Some((a, b)),
{
    let s = a + seq![c] + b;
    lemma_first_index_at(a, c, b);
    assert(s.subrange(0, a.len() as int) =~= a);
    assert(s.subrange(a.len() as int + 1, s.len() as int) =~= b);
}

proof fn lemma_split_on_whole(a: Seq<char>, c: char)
    requires
        !a.contains(c),
    ensures
        split_on(a, c) == seq![a],
{
    lemma_first_index_at(a, c, Seq::empty());
}

/// Splitting at a separator splits each side apart.
proof fn lemma_split_on_concat(a: Seq<char>, c: char, b: Seq<char>)
    ensures
        split_on(a + seq![c] + b, c) == split_on(a, c) + split_on(b, c),
    decreases a.len(),
{
    let s = a + seq![c] + b;
    if !a.contains(c) {
        lemma_first_index_at(a, c, b);
        lemma_split_on_whole(a, c);
        assert(s.subrange(0, a.len() as int) =~= a);
        assert(s.subrange(a.len() as int + 1, s.len() as int) =~= b);
    } else {
        lemma_first_index_bounds(a, c);
        let k = first_index(a, c);
        if k >= a.len() {
            let x = choose|x: int| 0 <= x < a.len() && a[x] == c;
            assert(a[x] == c);
            assert(false);
        }
        assert forall|j: int| 0 <= j < k implies s[j] != c by {
            assert(s[j] == a[j]);
        }
        lemma_first_index_from(s, c, k);
        assert(s.subrange(k, s.len() as int)[0] == c);
        let rest = a.subrange(k + 1, a.len() as int);
        lemma_split_on_concat(rest, c, b);
        assert(s.subrange(0, k) =~= a.subrange(0, k));
        assert(s.subrange(k + 1, s.len() as int) =~= rest + seq![c] + b);
        assert(split_on(a, c) == seq![a.subrange(0, k)] + split_on(rest, c));
        assert(split_on(s, c) == seq![s.subrange(0, k)] + split_on(s.subrange(k + 1, s.len() as int), c));
        assert(split_on(s, c) =~= split_on(a, c) + split_on(b, c));
    }
}

/// Splitting `", "`-joined parts without `,` on `,` gives the parts back, each but the
/// first behind a space.
proof fn lemma_split_joined(t: Seq<Seq<char>>)
    requires
        t.len() >= 1,
        forall|i: int| 0 <= i < t.len() ==> !(#[trigger] t[i]).contains(','),
    ensures
        split_on(join(t, ", "@), ',') == spaced(t),
    decreases t.len(),
{
    if t.len() == 1 {
        lemma_split_on_whole(t[0], ',');
        assert(spaced(t) == t);
        assert(t =~= seq![t[0]]);
    } else {
        let init = t.drop_last();
        assert forall|i: int| 0 <= i < init.len() implies !(#[trigger] init[i]).contains(',') by {
            assert(init[i] == t[i]);
        }
        lemma_split_joined(init);
        reveal_strlit(", ");
        let tail = seq![' '] + t.last();
        assert(!tail.contains(',')) by {
            if tail.contains(',') {
                let x = choose|x: int| 0 <= x < tail.len() && tail[x] == ',';
                assert(x > 0);
                assert(t.last()[x - 1] == ',');
                assert(t.last().contains(','));
            }
        }
        assert(join(t, ", "@) =~= join(init, ", "@) + seq![','] + tail);
        lemma_split_on_concat(join(init, ", "@), ',', tail);
        lemma_split_on_whole(tail, ',');
        assert(spaced(init) + seq![tail] =~= spaced(t));
    }
}

/// The text of a clean window reads back as its weekday and window.
proof fn lemma_window_text_reads_back(d: Seq<char>, w: WindowView)
    requires
        clean_day(d),
        clean_window(w),
    ensures
        form_window(window_text(d, w)) == Some((d, w)),
        window_text(d, w).len() > 0,
        !crate::text::is_ws(window_text(d, w)[0]),
        !crate::text::is_ws(window_text(d, w).last()),
        !window_text(d, w).contains(','),
{
    reveal_strlit("=");
    reveal_strlit("-");
    let t = window_text(d, w);
    let rest = w.0 + seq!['-'] + w.1;
    assert(t =~= d + seq!['='] + rest);
    lemma_split_once_at(d, '=', rest);
    lemma_split_once_at(w.0, '-', w.1);
    if d.len() > 0 {
        crate::text::lemma_trimmed_ends(d);
        assert(t[0] == d[0]);
    } else {
        assert(t[0] == '=');
    }
    if w.1.len() > 0 {
        crate::text::lemma_trimmed_ends(w.1);
        assert(t.last() == w.1.last());
    } else {
        assert(t.last() == '-');
    }
    assert(!t.contains(',')) by {
        if t.contains(',') {
            let x = choose|x: int| 0 <= x < t.len() && t[x] == ',';
            if x < d.len() {
                assert(d[x] == ',');
                assert(d.contains(','));
            } else if x == d.len() {
                assert(t[x] == '=');
            } else if x < d.len() + 1 + w.0.len() {
                assert(w.0[x - d.len() - 1] == ',');
                assert(w.0.contains(','));
            } else if x == d.len() + 1 + w.0.len() {
                assert(t[x] == '-');
            } else {
                assert(w.1[x - d.len() - 2 - w.0.len()] == ',');
                assert(w.1.contains(','));
            }
        }
    }
}

/// Reading the split texts of clean pairs adds the pairs one by one.
proof fn lemma_read_pairs(ps: Seq<(Seq<char>, WindowView)>)
    requires
        ps.len() >= 1,
        forall|k: int| 0 <= k < ps.len() ==> clean_day((#[trigger] ps[k]).0) && clean_window(ps[k].1),
    ensures
        form_availability(spaced(pair_texts(ps))) == Some(build(ps)),
    decreases ps.len(),
{
    let t = pair_texts(ps);
    let last = ps.last();
    assert(t.last() == pair_text(last));
    lemma_window_text_reads_back(last.0, last.1);
    crate::text::lemma_trim_keeps_inner(pair_text(last));
    if ps.len() == 1 {
        assert(spaced(t) == t);
        assert(t.drop_last() =~= Seq::<Seq<char>>::empty());
        assert(ps.drop_last() =~= Seq::<(Seq<char>, WindowView)>::empty());
        assert(t.last() == pair_text(last));
        assert(form_availability(t.drop_last()) == Some(Seq::<(Seq<char>, Seq<WindowView>)>::empty()));
        assert(build(ps.drop_last()) == Seq::<(Seq<char>, Seq<WindowView>)>::empty());
        assert(trim(t.last()) == pair_text(last));
    } else {
        let init = ps.drop_last();
        assert forall|k: int| 0 <= k < init.len() implies clean_day((#[trigger] init[k]).0) && clean_window(init[k].1) by {
            assert(init[k] == ps[k]);
        }
        lemma_read_pairs(init);
        assert(t.drop_last() =~= pair_texts(init));
        assert(spaced(t).drop_last() =~= spaced(t.drop_last()));
        assert(spaced(t).last() == seq![' '] + pair_text(last));
        let sp = spaced(t);
        assert(sp.drop_last() == spaced(pair_texts(init)));
        assert(form_availability(sp.drop_last()) == Some(build(init)));
        assert(trim(sp.last()) == pair_text(last));
    }
}

/// Adding a weekday larger than every weekday there puts it last.
proof fn lemma_insert_largest(m: AvailabilityView, k: Seq<char>, w: WindowView)
    requires
        forall|i: int| 0 <= i < m.len() ==> text_lt((#[trigger] m[i]).0, k),
    ensures
        avail_insert(m, k, w) == m.push((k, seq![w])),
    decreases m.len(),
{
    if m.len() == 0 {
        assert(avail_insert(m, k, w) =~= m.push((k, seq![w])));
    } else {
        assert(text_lt(m[0].0, k));
        lemma_text_lt_irreflexive(k);
        if text_lt(k, m[0].0) {
            lemma_text_lt_trans(k, m[0].0, k);
        }
        let rest = m.drop_first();
        assert forall|i: int| 0 <= i < rest.len() implies text_lt((#[trigger] rest[i]).0, k) by {
            assert(rest[i] == m[i + 1]);
        }
        lemma_insert_largest(rest, k, w);
        assert(avail_insert(m, k, w) =~= m.push((k, seq![w])));
    }
}

/// Adding a window to the last and largest weekday appends it to that weekday.
proof fn lemma_insert_into_last(m: AvailabilityView, k: Seq<char>, w: WindowView)
    requires
        m.len() >= 1,
        m.last().0 == k,
        forall|i: int| 0 <= i < m.len() - 1 ==> text_lt((#[trigger] m[i]).0, k),
    ensures
        avail_insert(m, k, w) == m.drop_last().push((k, m.last().1.push(w))),
    decreases m.len(),
{
    if m.len() == 1 {
        assert(m[0].0 == k);
        assert(avail_insert(m, k, w) =~= m.drop_last().push((k, m.last().1.push(w))));
    } else {
        assert(text_lt(m[0].0, k));
        lemma_text_lt_irreflexive(k);
        if text_lt(k, m[0].0) {
            lemma_text_lt_trans(k, m[0].0, k);
        }
        let rest = m.drop_first();
        assert forall|i: int| 0 <= i < rest.len() - 1 implies text_lt((#[trigger] rest[i]).0, k) by {
            assert(rest[i] == m[i + 1]);
        }
        assert(rest.last() == m.last());
        lemma_insert_into_last(rest, k, w);
        assert(avail_insert(m, k, w) =~= m.drop_last().push((k, m.last().1.push(w))));
    }
}

/// Adding the first `j` windows of a weekday larger than every weekday of `base`.
proof fn lemma_build_day(
    a: Seq<(Seq<char>, WindowView)>,
    base: AvailabilityView,
    d: (Seq<char>, Seq<WindowView>),
    j: int,
)
    requires
        build(a) == base,
        forall|i: int| 0 <= i < base.len() ==> text_lt((#[trigger] base[i]).0, d.0),
        1 <= j <= d.1.len(),
    ensures
        build(a + day_pairs(d).take(j)) == base.push((d.0, d.1.take(j))),
    decreases j,
{
    let s = a + day_pairs(d).take(j);
    assert(s.last() == (d.0, d.1[j - 1]));
    if j == 1 {
        assert(s.drop_last() =~= a);
        lemma_insert_largest(base, d.0, d.1[0]);
        assert(d.1.take(1) =~= seq![d.1[0]]);
    } else {
        lemma_build_day(a, base, d, j - 1);
        assert(s.drop_last() =~= a + day_pairs(d).take(j - 1));
        let prev = base.push((d.0, d.1.take(j - 1)));
        assert forall|i: int| 0 <= i < prev.len() - 1 implies text_lt((#[trigger] prev[i]).0, d.0) by {
            assert(prev[i] == base[i]);
        }
        lemma_insert_into_last(prev, d.0, d.1[j - 1]);
        assert(prev.drop_last() =~= base);
        assert(d.1.take(j - 1).push(d.1[j - 1]) =~= d.1.take(j));
    }
}

/// Adding the pairs of a sorted availability with no empty weekday gives it back.
proof fn lemma_build_all_pairs(m: AvailabilityView)
    requires
        sorted_days(m),
        forall|i: int| 0 <= i < m.len() ==> (#[trigger] m[i]).1.len() > 0,
    ensures
        build(all_pairs(m)) == m,
    decreases m.len(),
{
    if m.len() > 0 {
        let init = m.drop_last();
        let d = m.last();
        assert forall|i: int, j: int| 0 <= i < j < init.len() implies text_lt(#[trigger] init[i].0, #[trigger] init[j].0) by {
            assert(init[i] == m[i] && init[j] == m[j]);
        }
        assert forall|i: int| 0 <= i < init.len() implies (#[trigger] init[i]).1.len() > 0 by {
            assert(init[i] == m[i]);
        }
        lemma_build_all_pairs(init);
        assert forall|i: int| 0 <= i < init.len() implies text_lt((#[trigger] init[i]).0, d.0) by {
            assert(init[i] == m[i]);
            assert(text_lt(m[i].0, m[m.len() - 1].0));
        }
        assert(d.1.len() > 0);
        lemma_build_day(all_pairs(init), init, d, d.1.len() as int);
        assert(day_pairs(d).take(d.1.len() as int) =~= day_pairs(d));
        assert(d.1.take(d.1.len() as int) =~= d.1);
        assert(init.push((d.0, d.1)) =~= m);
    }
}

/// The pairs of an availability whose weekdays and windows are clean are clean, and
/// their texts are the window texts.
proof fn lemma_all_pairs_texts(m: AvailabilityView)
    requires
        forall|i: int| 0 <= i < m.len() ==> clean_day((#[trigger] m[i]).0),
        forall|i: int, j: int| 0 <= i < m.len() && 0 <= j < m[i].1.len() ==> clean_window(#[trigger] m[i].1[j]),
    ensures
        all_window_texts(m) == pair_texts(all_pairs(m)),
        forall|k: int| 0 <= k < all_pairs(m).len() ==> clean_day((#[trigger] all_pairs(m)[k]).0) && clean_window(all_pairs(m)[k].1),
        m.len() > 0 ==> all_pairs(m).len() >= m.last().1.len(),
    decreases m.len(),
{
    if m.len() > 0 {
        let init = m.drop_last();
        let d = m.last();
        assert forall|i: int| 0 <= i < init.len() implies clean_day((#[trigger] init[i]).0) by {
            assert(init[i] == m[i]);
        }
        assert forall|i: int, j: int| 0 <= i < init.len() && 0 <= j < init[i].1.len() implies clean_window(#[trigger] init[i].1[j]) by {
            assert(init[i] == m[i]);
        }
        lemma_all_pairs_texts(init);
        let a = all_pairs(init);
        let p = all_pairs(m);
        assert(p == a + day_pairs(d));
        assert(day_texts(d) =~= pair_texts(day_pairs(d)));
        assert(all_window_texts(m) =~= pair_texts(p));
        assert(clean_day(m[m.len() - 1].0));
        assert forall|k: int| 0 <= k < p.len() implies clean_day((#[trigger] p[k]).0) && clean_window(p[k].1) by {
            if k < a.len() {
                assert(p[k] == a[k]);
            } else {
                let j = k - a.len();
                assert(p[k] == (d.0, d.1[j]));
                assert(clean_window(m[m.len() - 1].1[j]));
            }
        }
    }
}

/// Reading back the text that `availability_to_specs` writes gives the same
/// availability, for weekdays in ascending order each with at least one window, whose
/// names and windows are clean (`clean_day`, `clean_window`).
pub proof fn lemma_availability_round_trip(m: AvailabilityView)
    requires
        sorted_days(m),
        forall|i: int| 0 <= i < m.len() ==> (#[trigger] m[i]).1.len() > 0,
        forall|i: int| 0 <= i < m.len() ==> clean_day((#[trigger] m[i]).0),
        forall|i: int, j: int| 0 <= i < m.len() && 0 <= j < m[i].1.len() ==> clean_window(#[trigger] m[i].1[j]),
    ensures
        form_availability(split_on(join(all_window_texts(m), ", "@), ',')) == Some(m),
{
    if m.len() == 0 {
        let e = Seq::<char>::empty();
        assert(join(all_window_texts(m), ", "@) == e);
        assert(!e.contains(','));
        lemma_split_on_whole(e, ',');
        let pieces = seq![e];
        assert(pieces.drop_last() =~= Seq::<Seq<char>>::empty());
        assert(form_availability(Seq::<Seq<char>>::empty()) == Some(Seq::<(Seq<char>, Seq<WindowView>)>::empty()));
        assert(split_on(join(all_window_texts(m), ", "@), ',') == pieces);
        assert(trim(e) =~= e);
        assert(m =~= Seq::<(Seq<char>, Seq<WindowView>)>::empty());
    } else {
        lemma_all_pairs_texts(m);
        let ps = all_pairs(m);
        let t = pair_texts(ps);
        assert(m[m.len() - 1].1.len() > 0);
        assert forall|i: int| 0 <= i < t.len() implies !(#[trigger] t[i]).contains(',') by {
            lemma_window_text_reads_back(ps[i].0, ps[i].1);
        }
        assert(t.len() >= 1);
        lemma_split_joined(t);
        lemma_read_pairs(ps);
        lemma_build_all_pairs(m);
        assert(all_window_texts(m) == t);
        assert(split_on(join(t, ", "@), ',') == spaced(t));
        assert(form_availability(spaced(t)) == Some(build(ps)));
    }
}

} // verus!
