//! Calendar dates as the commands read and show them.
//!
//! Parsing `YYYY-MM-DD`, today's local date and the month-name formats are
//! chrono's; a date carries chrono's value together with its day number, by
//! which the commands compare and count days. The time of day shown next to
//! a due date is cut out of the API's datetime text here.

use vstd::prelude::*;
use chrono::Datelike;
use crate::text::{chars_of, is_ascii_text, push_char, push_range, push_str, string_of};

verus! {

/// chrono's calendar date.
#[verifier::external_type_specification]
#[verifier::external_body]
pub struct ExNaiveDate(chrono::NaiveDate);

/// Day number of chrono's earliest date (January 1, 262144 BCE).
pub const MIN_DAY: i32 = -95746129;

/// Day number of chrono's latest date (December 31, 262142 CE).
pub const MAX_DAY: i32 = 95745399;

/// A calendar date: chrono's value and its day number in the proleptic
/// Gregorian calendar (January 1 of year 1 is day 1).
#[derive(Clone, Copy, Debug)]
pub struct CalDate {
    naive: chrono::NaiveDate,
    days: i32,
}

impl CalDate {
    /// Every date lies within chrono's range.
    #[verifier::type_invariant]
    spec fn in_range(self) -> bool {
        MIN_DAY <= self.days <= MAX_DAY
    }

    /// The day number of the date.
    pub closed spec fn num(self) -> int {
        self.days as int
    }

    /// The day number of the date.
    pub fn day_number(&self) -> (r: i32)
        ensures
            r as int == self.num(),
            MIN_DAY <= r <= MAX_DAY,
    {
        proof {
            use_type_invariant(self);
        }
        self.days
    }

    /// Parses a `YYYY-MM-DD` date, as chrono's `%Y-%m-%d` reads it.
    pub fn parse(s: &str) -> (r: Option<CalDate>)
        ensures
            match r {
                Some(d) => date_number(s@) == Some(d.num()),
                None => date_number(s@) is None,
            },
    {
        parse_naive(s)
    }
}

/// The day number of the date chrono reads from `s` with the format
/// `%Y-%m-%d`, or `None` where it reads none.
pub uninterp spec fn date_number(s: Seq<char>) -> Option<int>;

/// `chrono::NaiveDate::parse_from_str(s, "%Y-%m-%d")`, with the day number
/// of the date it gives (`Datelike::num_days_from_ce`).
#[verifier::external_body]
fn parse_naive(s: &str) -> (r: Option<CalDate>)
    ensures
        match r {
            Some(d) => date_number(s@) == Some(d.num()),
            None => date_number(s@) is None,
        },
{
    match chrono::NaiveDate::parse_from_str(s, "%Y-%m-%d") {
        Ok(d) => Some(CalDate { naive: d, days: d.num_days_from_ce() }),
        Err(_) => None,
    }
}

/// Today's date in the local time zone (`chrono::Local::now().date_naive()`).
/// What it is depends on the clock, so nothing is stated of it.
#[verifier::external_body]
pub(crate) fn local_today() -> (d: CalDate) {
    let n = chrono::Local::now().date_naive();
    CalDate { naive: n, days: n.num_days_from_ce() }
}

/// The text chrono's `format(fmt)` gives for the date with day number `days`.
pub uninterp spec fn date_text(days: int, fmt: Seq<char>) -> Seq<char>;

/// `date.format(fmt).to_string()` for the two formats the commands use.
#[verifier::external_body]
fn format_naive(d: &CalDate, fmt: &str) -> (r: String)
    requires
        fmt@ == "%b %d"@ || fmt@ == "%B %d, %Y"@,
    ensures
        r@ == date_text(d.num(), fmt@),
{
    d.naive.format(fmt).to_string()
}

/// The date as `Jan 05`.
pub fn short_date(d: &CalDate) -> (r: String)
    ensures
        r@ == date_text(d.num(), "%b %d"@),
{
    format_naive(d, "%b %d")
}

/// The date as `January 05, 2025`.
pub fn long_date(d: &CalDate) -> (r: String)
    ensures
        r@ == date_text(d.num(), "%B %d, %Y"@),
{
    format_naive(d, "%B %d, %Y")
}

/// Whether chrono reads `s` as an RFC 3339 date and time.
pub uninterp spec fn is_rfc3339(s: Seq<char>) -> bool;

/// `chrono::DateTime::parse_from_rfc3339(s)`, shown in the local time zone
/// as `%Y-%m-%d %H:%M`. The text depends on the machine's time zone, so only
/// whether there is one is stated, and what chrono's formatting writes for
/// that pattern: ASCII digits, signs and separators, at most 19 of them (a
/// year of up to six digits and a sign, then two digits each for month,
/// day, hour and minute).
#[verifier::external_body]
fn local_datetime_text(s: &str) -> (r: Option<String>)
    ensures
        r is Some <== is_rfc3339(s@),
        r is None <== !is_rfc3339(s@),
        r matches Some(t) ==> t@.len() <= 19 && is_ascii_text(t@),
{
    match chrono::DateTime::parse_from_rfc3339(s) {
        Ok(dt) => Some(dt.with_timezone(&chrono::Local).format("%Y-%m-%d %H:%M").to_string()),
        Err(_) => None,
    }
}

/// Formats an RFC 3339 time in local time; any other text is shown as it is.
pub fn format_datetime(datetime: &str) -> (r: String)
    ensures
        !is_rfc3339(datetime@) ==> r@ == datetime@,
        is_rfc3339(datetime@) ==> r@.len() <= 19 && is_ascii_text(r@),
{
    match local_datetime_text(datetime) {
        Some(t) => t,
        None => string_of(datetime),
    }
}

/// The index of the first `c` in `s` at or after `from`, or the length of `s`.
pub open spec fn find_char(s: Seq<char>, c: char, from: int) -> int
    decreases s.len() - from,
{
    if from >= s.len() {
        s.len() as int
    } else if s[from] == c {
        from
    } else {
        find_char(s, c, from + 1)
    }
}

/// `find_char` stops at the first `c` at or after `from`, or at the end.
pub proof fn lemma_find_char(s: Seq<char>, c: char, from: int)
    requires
        0 <= from <= s.len(),
    ensures
        from <= find_char(s, c, from) <= s.len(),
        find_char(s, c, from) < s.len() ==> s[find_char(s, c, from)] == c,
        forall|k: int| from <= k < find_char(s, c, from) ==> s[k] != c,
    decreases s.len() - from,
{
    if from < s.len() && s[from] != c {
        lemma_find_char(s, c, from + 1);
    }
}

/// Exec `find_char`.
pub fn find_char_in(v: &Vec<char>, c: char, from: usize) -> (r: usize)
    requires
        from <= v.len(),
    ensures
        r == find_char(v@, c, from as int),
        from <= r <= v.len(),
{
    proof {
        lemma_find_char(v@, c, from as int);
    }
    let mut i = from;
    while i < v.len()
        invariant
            from <= i <= v.len(),
            find_char(v@, c, i as int) == find_char(v@, c, from as int),
        decreases v.len() - i,
    {
        if v[i] == c {
            return i;
        }
        i = i + 1;
    }
    i
}

/// The text between the first and the second `T` (`split('T').nth(1)`).
pub open spec fn time_part(dt: Seq<char>) -> Option<Seq<char>> {
    let i = find_char(dt, 'T', 0);
    if i >= dt.len() {
        None
    } else {
        Some(dt.subrange(i + 1, find_char(dt, 'T', i + 1)))
    }
}

/// `s` without its trailing `Z`s.
pub open spec fn trim_z(s: Seq<char>) -> Seq<char>
    decreases s.len(),
{
    if s.len() > 0 && s.last() == 'Z' {
        trim_z(s.drop_last())
    } else {
        s
    }
}

/// The first two `:`-separated parts of `s`, joined by `:`.
pub open spec fn hours_minutes(s: Seq<char>) -> Seq<char> {
    let i = find_char(s, ':', 0);
    if i >= s.len() {
        s
    } else {
        s.take(find_char(s, ':', i + 1))
    }
}

/// The hours and minutes of an API datetime such as `2025-01-15T14:30:00Z`.
pub open spec fn time_of_day_spec(dt: Seq<char>) -> Option<Seq<char>> {
    match time_part(dt) {
        Some(p) => {
            let hm = hours_minutes(trim_z(p));
            if hm.len() > 0 {
                Some(hm)
            } else {
                None
            }
        },
        None => None,
    }
}

/// The hours and minutes of an API datetime, where it has a non-empty one.
pub fn time_of_day(datetime: &str) -> (r: Option<String>)
    ensures
        match time_of_day_spec(datetime@) {
            Some(hm) => r matches Some(x) && x@ == hm,
            None => r is None,
        },
{
    let v = chars_of(datetime);
    let i = find_char_in(&v, 'T', 0);
    if i >= v.len() {
        return None;
    }
    let j = find_char_in(&v, 'T', i + 1);
    let ghost p = v@.subrange(i + 1, j as int);
    // Trailing `Z`s end the part at `e`.
    let mut e = j;
    assert(trim_z(p) == trim_z(v@.subrange(i + 1, e as int)));
    while e > i + 1 && v[e - 1] == 'Z'
        invariant
            i + 1 <= e <= j <= v.len(),
            trim_z(p) == trim_z(v@.subrange(i + 1, e as int)),
        decreases e,
    {
        assert(v@.subrange(i + 1, e as int).drop_last() =~= v@.subrange(i + 1, e - 1));
        e = e - 1;
    }
    let ghost t = v@.subrange(i + 1, e as int);
    assert(trim_z(t) == t);
    assert(trim_z(p) == t);
    // The part as its own sequence, to find the colons in.
    let mut part: Vec<char> = Vec::new();
    let mut k = i + 1;
    while k < e
        invariant
            i + 1 <= k <= e <= v.len(),
            part@ == v@.subrange(i + 1, k as int),
        decreases e - k,
    {
        part.push(v[k]);
        assert(v@.subrange(i + 1, k + 1) =~= v@.subrange(i + 1, k as int).push(v@[k as int]));
        k = k + 1;
    }
    assert(part@ == t);
    let c1 = find_char_in(&part, ':', 0);
    let end = if c1 >= part.len() {
        part.len()
    } else {
        find_char_in(&part, ':', c1 + 1)
    };
    assert(hours_minutes(t) =~= part@.take(end as int));
    if end == 0 {
        return None;
    }
    let mut hm = String::new();
    push_range(&mut hm, &part, 0, end);
    assert(part@.subrange(0, end as int) =~= part@.take(end as int));
    Some(hm)
}

} // verus!
