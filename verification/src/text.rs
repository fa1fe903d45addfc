use vstd::prelude::*;
use vstd::string::StringExecFns;
use crate::models::opt_view;

verus! {

/// Unicode `White_Space` characters, the set that `str::trim` removes.
pub open spec fn is_ws(c: char) -> bool {
    let n = c as u32;
    ||| (0x09 <= n && n <= 0x0d)
    ||| n == 0x20
    ||| n == 0x85
    ||| n == 0xa0
    ||| n == 0x1680
    ||| (0x2000 <= n && n <= 0x200a)
    ||| n == 0x2028
    ||| n == 0x2029
    ||| n == 0x202f
    ||| n == 0x205f
    ||| n == 0x3000
}

/// `s` with leading white space removed.
pub open spec fn trim_left(s: Seq<char>) -> Seq<char>
    decreases s.len(),
{
    if s.len() > 0 && is_ws(s[0]) {
        trim_left(s.drop_first())
    } else {
        s
    }
}

/// `s` with trailing white space removed.
pub open spec fn trim_right(s: Seq<char>) -> Seq<char>
    decreases s.len(),
{
    if s.len() > 0 && is_ws(s.last()) {
        trim_right(s.drop_last())
    } else {
        s
    }
}

/// `s` with white space removed at both ends, as `str::trim` gives it.
pub open spec fn trim(s: Seq<char>) -> Seq<char> {
    trim_right(trim_left(s))
}

/// `prefix` is a prefix of `s`.
pub open spec fn has_prefix(s: Seq<char>, prefix: Seq<char>) -> bool {
    prefix.len() <= s.len() && s.subrange(0, prefix.len() as int) == prefix
}

/// `pat` occurs in `s` at position `i`.
pub open spec fn occurs_at(s: Seq<char>, pat: Seq<char>, i: int) -> bool {
    0 <= i && i + pat.len() <= s.len() && s.subrange(i, i + pat.len()) == pat
}

/// `pat` occurs somewhere in `s`.
pub open spec fn has_infix(s: Seq<char>, pat: Seq<char>) -> bool {
    exists|i: int| occurs_at(s, pat, i)
}

/// Decimal digit character for `d < 10`.
pub open spec fn digit_char(d: nat) -> char {
    (('0' as u32) + d) as char
}

/// Decimal representation of `n`, without sign or leading zeros.
pub open spec fn decimal(n: nat) -> Seq<char>
    decreases n,
{
    if n < 10 {
        seq![digit_char(n)]
    } else {
        decimal(n / 10).push(digit_char(n % 10))
    }
}

/// Appends one character to a `String` (std's `String::push`).
#[verifier::external_body]
pub(crate) fn push_char(s: &mut String, c: char)
    ensures
        final(s)@ == old(s)@.push(c),
{
    s.push(c);
}

/// Removes the last character of a `String` and returns it (std's `String::pop`);
/// an empty string stays empty and gives `None`.
#[verifier::external_body]
pub(crate) fn pop_char(s: &mut String) -> (r: Option<char>)
    ensures
        old(s)@.len() == 0 ==> r is None && final(s)@ == old(s)@,
        old(s)@.len() > 0 ==> r == Some(old(s)@.last()) && final(s)@ == old(s)@.drop_last(),
{
    s.pop()
}

/// The value of a non-empty run of ASCII decimal digits.
pub open spec fn digits_value(s: Seq<char>) -> int
    decreases s.len(),
{
    if s.len() == 0 {
        0
    } else {
        digits_value(s.drop_last()) * 10 + (s.last() as int - '0' as int)
    }
}

/// `s` is a non-empty run of ASCII decimal digits.
pub open spec fn all_digits(s: Seq<char>) -> bool {
    s.len() > 0 && forall|i: int| 0 <= i < s.len() ==> '0' <= #[trigger] s[i] <= '9'
}

/// The integer written in `s`: an optional `+` or `-` followed by decimal digits, nothing else.
pub open spec fn signed_value(s: Seq<char>) -> Option<int> {
    if s.len() > 0 && s[0] == '-' && all_digits(s.drop_first()) {
        Some(-digits_value(s.drop_first()))
    } else if s.len() > 0 && s[0] == '+' && all_digits(s.drop_first()) {
        Some(digits_value(s.drop_first()))
    } else if all_digits(s) {
        Some(digits_value(s))
    } else {
        None
    }
}

/// What `s.parse::<i64>()` accepts: the integer written in `s`, where it fits in an `i64`.
pub open spec fn parsed_i64(s: Seq<char>) -> Option<i64> {
    match signed_value(s) {
        Some(v) => if i64::MIN <= v <= i64::MAX {
            Some(v as i64)
        } else {
            None
        },
        None => None,
    }
}

proof fn lemma_digits_prefix(t: Seq<char>, k: int)
    requires
        forall|i: int| 0 <= i < t.len() ==> '0' <= #[trigger] t[i] <= '9',
        0 <= k <= t.len(),
    ensures
        0 <= digits_value(t.take(k)) <= digits_value(t),
    decreases t.len(),
{
    if k == t.len() {
        assert(t.take(k) =~= t);
        if t.len() > 0 {
            lemma_digits_prefix(t.drop_last(), t.len() - 1);
            assert(t.drop_last().take(t.len() - 1) =~= t.drop_last());
        }
    } else {
        let u = t.drop_last();
        assert forall|i: int| 0 <= i < u.len() implies '0' <= #[trigger] u[i] <= '9' by {
            assert(u[i] == t[i]);
        }
        lemma_digits_prefix(u, k);
        lemma_digits_prefix(u, u.len() as int);
        assert(u.take(k) =~= t.take(k));
        assert(u.take(u.len() as int) =~= u);
        assert('0' <= t[t.len() - 1] <= '9');
    }
}

/// The largest magnitude an `i64` can have (that of `i64::MIN`).
pub open spec fn magnitude_limit() -> int {
    9_223_372_036_854_775_808
}

/// The value of the digits of `chars` from `start` on, if they are all digits and the value
/// is at most the magnitude of `i64::MIN`.
fn digits_magnitude(chars: &Vec<char>, start: usize) -> (r: Option<u128>)
    requires
        start <= chars.len(),
    ensures
        ({
            let sub = chars@.subrange(start as int, chars@.len() as int);
            match r {
                Some(m) => all_digits(sub) && m == digits_value(sub) && m <= magnitude_limit(),
                None => !all_digits(sub) || digits_value(sub) > magnitude_limit(),
            }
        }),
{
    let ghost sub = chars@.subrange(start as int, chars@.len() as int);
    if start == chars.len() {
        return None;
    }
    let mut m: u128 = 0;
    let mut i: usize = start;
    while i < chars.len()
        invariant
            start <= i <= chars@.len(),
            sub == chars@.subrange(start as int, chars@.len() as int),
            forall|k: int| start <= k < i ==> '0' <= #[trigger] chars@[k] <= '9',
            m == digits_value(chars@.subrange(start as int, i as int)),
            m <= magnitude_limit(),
        decreases chars@.len() - i,
    {
        let c = chars[i];
        if !('0' <= c && c <= '9') {
            assert(sub[i - start] == c);
            return None;
        }
        let d = (c as u32 - '0' as u32) as u128;
        let next = m * 10 + d;
        let ghost pre = chars@.subrange(start as int, i + 1);
        assert(pre.drop_last() =~= chars@.subrange(start as int, i as int));
        assert(pre.last() == c);
        assert(next == digits_value(pre));
        if next > 9_223_372_036_854_775_808u128 {
            proof {
                if all_digits(sub) {
                    lemma_digits_prefix(sub, i + 1 - start);
                    assert(sub.take(i + 1 - start) =~= pre);
                }
            }
            return None;
        }
        m = next;
        i = i + 1;
    }
    assert(chars@.subrange(start as int, i as int) =~= sub);
    Some(m)
}

/// Reads a decimal `i64` as `str::parse::<i64>` does: an optional `+` or `-`, then decimal
/// digits only; `None` for anything else or a value out of range.
pub(crate) fn parse_i64(s: &str) -> (r: Option<i64>)
    ensures
        r == parsed_i64(s@),
{
    let chars = chars_of(s);
    let n = chars.len();
    if n > 0 && (chars[0] == '-' || chars[0] == '+') {
        let negative = chars[0] == '-';
        assert(chars@.subrange(1, n as int) =~= s@.drop_first());
        assert(!all_digits(s@)) by {
            assert(!('0' <= s@[0] <= '9'));
        }
        match digits_magnitude(&chars, 1) {
            Some(m) => {
                if negative {
                    if m == 9_223_372_036_854_775_808u128 {
                        Some(i64::MIN)
                    } else {
                        Some(0 - (m as i64))
                    }
                } else if m <= 9_223_372_036_854_775_807u128 {
                    Some(m as i64)
                } else {
                    None
                }
            },
            None => None,
        }
    } else {
        assert(chars@.subrange(0, n as int) =~= s@);
        match digits_magnitude(&chars, 0) {
            Some(m) => {
                if m <= 9_223_372_036_854_775_807u128 {
                    Some(m as i64)
                } else {
                    None
                }
            },
            None => None,
        }
    }
}

/// The characters of a string slice, in order.
pub fn chars_of(s: &str) -> (v: Vec<char>)
    ensures
        v@ == s@,
{
    let mut v: Vec<char> = Vec::new();
    for c in it: s.chars()
        invariant
            v@ == it.seq().take(it.index() as int),
    {
        v.push(c);
    }
    v
}

/// A `String` holding `chars[from..to]`.
pub fn string_from_range(chars: &Vec<char>, from: usize, to: usize) -> (s: String)
    requires
        from <= to <= chars.len(),
    ensures
        s@ == chars@.subrange(from as int, to as int),
{
    let mut s = String::new();
    let mut i = from;
    while i < to
        invariant
            from <= i <= to <= chars.len(),
            s@ == chars@.subrange(from as int, i as int),
        decreases to - i,
    {
        push_char(&mut s, chars[i]);
        assert(chars@.subrange(from as int, i + 1) == chars@.subrange(from as int, i as int).push(chars@[i as int]));
        i = i + 1;
    }
    s
}

/// Whether `c` is a Unicode white space character.
pub fn char_is_ws(c: char) -> (b: bool)
    ensures
        b == is_ws(c),
{
    let n = c as u32;
    (0x09 <= n && n <= 0x0d) || n == 0x20 || n == 0x85 || n == 0xa0 || n == 0x1680 || (0x2000
        <= n && n <= 0x200a) || n == 0x2028 || n == 0x2029 || n == 0x202f || n == 0x205f || n
        == 0x3000
}

proof fn lemma_trim_left_skip(s: Seq<char>, i: int)
    requires
        0 <= i < s.len(),
        is_ws(s[i]),
    ensures
        trim_left(s.subrange(i, s.len() as int)) == trim_left(s.subrange(i + 1, s.len() as int)),
{
    assert(s.subrange(i, s.len() as int).drop_first() == s.subrange(i + 1, s.len() as int));
}

/// Bounds `(from, to)` such that `chars[from..to]` is the trimmed text.
pub fn trim_bounds(chars: &Vec<char>) -> (r: (usize, usize))
    ensures
        r.0 <= r.1 <= chars.len(),
        chars@.subrange(r.0 as int, r.1 as int) == trim(chars@),
{
    let n = chars.len();
    let mut i: usize = 0;
    assert(chars@.subrange(0, n as int) =~= chars@);
    while i < n && char_is_ws(chars[i])
        invariant
            i <= n == chars.len(),
            trim_left(chars@) == trim_left(chars@.subrange(i as int, n as int)),
        decreases n - i,
    {
        proof {
            lemma_trim_left_skip(chars@, i as int);
        }
        i = i + 1;
    }
    let ghost rest = chars@.subrange(i as int, n as int);
    assert(trim_left(rest) == rest);
    assert(trim_left(chars@) == rest);
    let mut j: usize = n;
    while j > i && char_is_ws(chars[j - 1])
        invariant
            i <= j <= n == chars.len(),
            trim_right(rest) == trim_right(chars@.subrange(i as int, j as int)),
        decreases j - i,
    {
        proof {
            let t = chars@.subrange(i as int, j as int);
            assert(t.drop_last() == chars@.subrange(i as int, j - 1));
        }
        j = j - 1;
    }
    let ghost fin = chars@.subrange(i as int, j as int);
    assert(trim_right(fin) == fin);
    (i, j)
}

/// `s` with surrounding white space removed (`str::trim`).
pub fn trim_str(s: &str) -> (t: String)
    ensures
        t@ == trim(s@),
{
    let chars = chars_of(s);
    let (from, to) = trim_bounds(&chars);
    string_from_range(&chars, from, to)
}

/// Whether `s` holds only white space.
pub fn is_blank(s: &str) -> (b: bool)
    ensures
        b == (trim(s@).len() == 0),
{
    let chars = chars_of(s);
    let (from, to) = trim_bounds(&chars);
    from == to
}

/// Whether `s` starts with `prefix`.
pub fn starts_with(s: &str, prefix: &str) -> (b: bool)
    ensures
        b == has_prefix(s@, prefix@),
{
    let a = chars_of(s);
    let p = chars_of(prefix);
    if p.len() > a.len() {
        return false;
    }
    let mut i: usize = 0;
    while i < p.len()
        invariant
            i <= p.len() <= a.len(),
            a@ == s@,
            p@ == prefix@,
            forall|k: int| 0 <= k < i ==> a@[k] == p@[k],
        decreases p.len() - i,
    {
        if a[i] != p[i] {
            assert(s@.subrange(0, prefix@.len() as int)[i as int] != prefix@[i as int]);
            return false;
        }
        i = i + 1;
    }
    assert(s@.subrange(0, prefix@.len() as int) =~= prefix@);
    true
}

/// Whether `pat` occurs in `a` at position `i`.
fn matches_at(a: &Vec<char>, p: &Vec<char>, i: usize) -> (b: bool)
    requires
        i + p.len() <= a.len(),
    ensures
        b == occurs_at(a@, p@, i as int),
{
    let mut k: usize = 0;
    while k < p.len()
        invariant
            k <= p.len(),
            i + p.len() <= a.len(),
            forall|m: int| 0 <= m < k ==> a@[i + m] == p@[m],
        decreases p.len() - k,
    {
        if a[i + k] != p[k] {
            assert(a@.subrange(i as int, i + p.len())[k as int] != p@[k as int]);
            return false;
        }
        k = k + 1;
    }
    assert(a@.subrange(i as int, i + p.len()) =~= p@);
    true
}

/// Whether `pat` occurs in `s` (`str::contains` with a string pattern).
pub fn contains_str(s: &str, pat: &str) -> (b: bool)
    ensures
        b == has_infix(s@, pat@),
{
    let a = chars_of(s);
    let p = chars_of(pat);
    if p.len() > a.len() {
        assert(!has_infix(s@, pat@));
        return false;
    }
    if p.len() == 0 {
        assert(s@.subrange(0, 0) =~= pat@);
        assert(occurs_at(s@, pat@, 0));
        return true;
    }
    let last = a.len() - p.len();
    let mut i: usize = 0;
    while i <= last
        invariant
            a@ == s@,
            p@ == pat@,
            last + p.len() == a.len(),
            p.len() > 0,
            i <= last + 1,
            forall|k: int| 0 <= k < i ==> !occurs_at(s@, pat@, k),
        decreases last + 1 - i,
    {
        if matches_at(&a, &p, i) {
            return true;
        }
        i = i + 1;
    }
    assert forall|k: int| !occurs_at(s@, pat@, k) by {
        if 0 <= k && k + pat@.len() <= s@.len() {
            assert(k < i);
        }
    }
    false
}

/// Decimal text of `n` (`usize::to_string`).
pub fn decimal_string(n: usize) -> (s: String)
    ensures
        s@ == decimal(n as nat),
    decreases n,
{
    let d = (n % 10) as u32;
    let c = char_from_digit(d);
    if n < 10 {
        let mut s = String::new();
        push_char(&mut s, c);
        assert(s@ =~= seq![digit_char(n as nat)]);
        s
    } else {
        let mut s = decimal_string(n / 10);
        push_char(&mut s, c);
        s
    }
}

/// Decimal text of an integer, with a leading `-` when negative (what `to_string` writes).
pub open spec fn int_text(n: int) -> Seq<char> {
    if n < 0 {
        seq!['-'] + decimal((-n) as nat)
    } else {
        decimal(n as nat)
    }
}

/// Decimal text of a `u64`.
pub fn decimal_string_u64(n: u64) -> (s: String)
    ensures
        s@ == decimal(n as nat),
    decreases n,
{
    let d = (n % 10) as u32;
    let c = char_from_digit(d);
    if n < 10 {
        let mut s = String::new();
        push_char(&mut s, c);
        assert(s@ =~= seq![digit_char(n as nat)]);
        s
    } else {
        let mut s = decimal_string_u64(n / 10);
        push_char(&mut s, c);
        s
    }
}

/// Decimal text of an `i64`, as `to_string` writes it.
pub fn int_string(n: i64) -> (s: String)
    ensures
        s@ == int_text(n as int),
{
    if n < 0 {
        let magnitude: u64 = if n == i64::MIN {
            9_223_372_036_854_775_808u64
        } else {
            (0 - n) as u64
        };
        let mut s = String::new();
        push_char(&mut s, '-');
        let digits = decimal_string_u64(magnitude);
        s.append(digits.as_str());
        assert(s@ =~= int_text(n as int));
        s
    } else {
        decimal_string_u64(n as u64)
    }
}

/// The characters `from..to` of `s`, as a new `String`.
pub fn char_slice(s: &str, from: usize, to: usize) -> (r: String)
    requires
        from <= to <= s@.len(),
    ensures
        r@ == s@.subrange(from as int, to as int),
{
    let chars = chars_of(s);
    string_from_range(&chars, from, to)
}

fn char_from_digit(d: u32) -> (c: char)
    requires
        d < 10,
    ensures
        c == digit_char(d as nat),
{
    if d == 0 { '0' }
    else if d == 1 { '1' }
    else if d == 2 { '2' }
    else if d == 3 { '3' }
    else if d == 4 { '4' }
    else if d == 5 { '5' }
    else if d == 6 { '6' }
    else if d == 7 { '7' }
    else if d == 8 { '8' }
    else { '9' }
}

/// Optional text trimmed, with blank text dropped.
pub open spec fn normalized(o: Option<Seq<char>>) -> Option<Seq<char>> {
    match o {
        Some(v) => if trim(v).len() == 0 {
            None
        } else {
            Some(trim(v))
        },
        None => None,
    }
}

/// Trims optional text and drops it when nothing is left.
pub fn normalize_optional(value: Option<String>) -> (r: Option<String>)
    ensures
        opt_view(r) == normalized(opt_view(value)),
{
    match value {
        Some(v) => {
            let t = trim_str(v.as_str());
            if is_blank(t.as_str()) {
                proof {
                    lemma_trim_idempotent(v@);
                }
                None
            } else {
                proof {
                    lemma_trim_idempotent(v@);
                }
                Some(t)
            }
        },
        None => None,
    }
}

proof fn lemma_trim_left_no_ws_start(s: Seq<char>)
    ensures
        trim_left(s).len() > 0 ==> !is_ws(trim_left(s)[0]),
        trim_left(trim_left(s)) == trim_left(s),
    decreases s.len(),
{
    if s.len() > 0 && is_ws(s[0]) {
        lemma_trim_left_no_ws_start(s.drop_first());
    }
}

proof fn lemma_trim_right_keeps_start(s: Seq<char>)
    requires
        s.len() > 0 ==> !is_ws(s[0]),
    ensures
        trim_right(s).len() > 0 ==> !is_ws(trim_right(s)[0]),
        trim_right(s).len() > 0 ==> trim_right(s)[0] == s[0],
        trim_right(s).len() > 0 ==> !is_ws(trim_right(s).last()),
        trim_right(trim_right(s)) == trim_right(s),
        trim_right(s).len() <= s.len(),
    decreases s.len(),
{
    if s.len() > 0 && is_ws(s.last()) {
        let t = s.drop_last();
        if t.len() > 0 {
            assert(t[0] == s[0]);
        }
        lemma_trim_right_keeps_start(t);
    }
}

/// Trimming twice is trimming once.
pub proof fn lemma_trim_idempotent(s: Seq<char>)
    ensures
        trim(trim(s)) == trim(s),
{
    lemma_trim_left_no_ws_start(s);
    let l = trim_left(s);
    lemma_trim_right_keeps_start(l);
    let t = trim_right(l);
    assert(trim_left(t) == t);
}

/// A trimmed, non-empty text begins and ends with something other than white space.
pub proof fn lemma_trimmed_ends(s: Seq<char>)
    requires
        trim(s) == s,
        s.len() > 0,
    ensures
        !is_ws(s[0]),
        !is_ws(s.last()),
{
    lemma_trim_left_no_ws_start(s);
    lemma_trim_right_keeps_start(trim_left(s));
}

/// A non-empty text with no white space at either end is its own trim, and so is
/// that text behind one space.
pub proof fn lemma_trim_keeps_inner(s: Seq<char>)
    requires
        s.len() > 0,
        !is_ws(s[0]),
        !is_ws(s.last()),
    ensures
        trim(s) == s,
        trim(seq![' '] + s) == s,
{
    let spaced = seq![' '] + s;
    assert(is_ws(' '));
    assert(spaced.drop_first() =~= s);
    assert(trim_left(s) == s);
    assert(trim_left(spaced) == trim_left(s));
    assert(trim_right(s) == s);
}

} // verus!
