//! Calendar dates as plain year/month/day values, with the successor and
//! ordering reasoning that meal-plan sequencing relies on.

use vstd::prelude::*;
use crate::text::{
    digit_char, digit_of, digit_val, four_digits, is_digit, push_four_digits, push_two_digits,
    two_digits,
};

verus! {

/// A calendar date in the proleptic Gregorian calendar. Keeping the fields as
/// plain integers lets every date computation in this crate be verified.
#[derive(Clone, Copy, Debug, PartialEq, Eq, Structural)]
pub struct Date {
    pub year: i32,
    pub month: i32,
    pub day: i32,
}

/// Earliest year a `Date` may carry.
pub const MIN_YEAR: i32 = 1;

/// Latest year a `Date` may carry; four decimal digits, which the plan-name
/// format depends on.
pub const MAX_YEAR: i32 = 9999;

pub open spec fn is_leap_year_spec(y: int) -> bool {
    (y % 4 == 0 && y % 100 != 0) || y % 400 == 0
}

pub open spec fn days_in_month_spec(y: int, m: int) -> int {
    if m == 2 {
        if is_leap_year_spec(y) {
            29
        } else {
            28
        }
    } else if m == 4 || m == 6 || m == 9 || m == 11 {
        30
    } else {
        31
    }
}

/// Strict calendar order: year, then month, then day.
pub open spec fn date_lt(a: Date, b: Date) -> bool {
    a.year < b.year || (a.year == b.year && (a.month < b.month || (a.month == b.month
        && a.day < b.day)))
}

pub open spec fn date_le(a: Date, b: Date) -> bool {
    a == b || date_lt(a, b)
}

/// The last representable date; the one date without a valid successor.
pub open spec fn is_max_date(d: Date) -> bool {
    d.year == MAX_YEAR && d.month == 12 && d.day == 31
}

/// The day after `d`.
pub open spec fn next_date_spec(d: Date) -> Date {
    if d.day < days_in_month_spec(d.year as int, d.month as int) {
        Date { year: d.year, month: d.month, day: (d.day + 1) as i32 }
    } else if d.month < 12 {
        Date { year: d.year, month: (d.month + 1) as i32, day: 1 }
    } else {
        Date { year: (d.year + 1) as i32, month: 1, day: 1 }
    }
}

/// `d` advanced by `n` days.
pub open spec fn date_plus(d: Date, n: nat) -> Date
    decreases n,
{
    if n == 0 {
        d
    } else {
        next_date_spec(date_plus(d, (n - 1) as nat))
    }
}

/// `d` is valid and so are its next `n` successors: the calendar does not run
/// out while advancing `n` days from `d`.
pub open spec fn dates_ok(d: Date, n: nat) -> bool
    decreases n,
{
    d.valid() && (n == 0 || (!is_max_date(d) && dates_ok(next_date_spec(d), (n - 1) as nat)))
}

impl Date {
    pub open spec fn valid(self) -> bool {
        MIN_YEAR <= self.year <= MAX_YEAR && 1 <= self.month <= 12 && 1 <= self.day
            <= days_in_month_spec(self.year as int, self.month as int)
    }
}

pub fn is_leap_year(y: i32) -> (r: bool)
    requires
        y >= 0,
    ensures
        r == is_leap_year_spec(y as int),
{
    (y % 4 == 0 && y % 100 != 0) || y % 400 == 0
}

pub fn days_in_month(y: i32, m: i32) -> (r: i32)
    requires
        y >= 0,
    ensures
        r == days_in_month_spec(y as int, m as int),
{
    if m == 2 {
        if is_leap_year(y) {
            29
        } else {
            28
        }
    } else if m == 4 || m == 6 || m == 9 || m == 11 {
        30
    } else {
        31
    }
}

impl Date {
    /// The day after `self`, or `None` when the calendar runs out.
    pub fn next_day(&self) -> (r: Option<Date>)
        requires
            self.valid(),
        ensures
            match r {
                Some(n) => !is_max_date(*self) && n == next_date_spec(*self) && n.valid(),
                None => is_max_date(*self),
            },
    {
        let dim = days_in_month(self.year, self.month);
        if self.day < dim {
            Some(Date { year: self.year, month: self.month, day: self.day + 1 })
        } else if self.month < 12 {
            Some(Date { year: self.year, month: self.month + 1, day: 1 })
        } else if self.year < MAX_YEAR {
            Some(Date { year: self.year + 1, month: 1, day: 1 })
        } else {
            None
        }
    }

    /// Strict calendar order, executable form.
    pub fn lt(&self, other: &Date) -> (r: bool)
        ensures
            r == date_lt(*self, *other),
    {
        self.year < other.year || (self.year == other.year && (self.month < other.month
            || (self.month == other.month && self.day < other.day)))
    }

    /// Non-strict calendar order, executable form.
    pub fn le(&self, other: &Date) -> (r: bool)
        ensures
            r == date_le(*self, *other),
    {
        !other.lt(self)
    }
}

impl Date {
    /// Whether the fields denote a real calendar day, executable form.
    pub fn check_valid(&self) -> (r: bool)
        ensures
            r == self.valid(),
    {
        if self.year < MIN_YEAR || self.year > MAX_YEAR {
            false
        } else if self.month < 1 || self.month > 12 {
            false
        } else {
            1 <= self.day && self.day <= days_in_month(self.year, self.month)
        }
    }
}

/// The ISO `YYYY-MM-DD` shape: ten characters, two dashes, eight digits.
pub open spec fn date_string_ok(s: Seq<char>) -> bool {
    s.len() == 10 && s[4] == '-' && s[7] == '-' && is_digit(s[0]) && is_digit(s[1]) && is_digit(
        s[2],
    ) && is_digit(s[3]) && is_digit(s[5]) && is_digit(s[6]) && is_digit(s[8]) && is_digit(s[9])
}

/// The date a well-shaped `YYYY-MM-DD` string encodes, read digit by digit.
pub open spec fn encoded_date(s: Seq<char>) -> Date {
    Date {
        year: (1000 * digit_val(s[0]) + 100 * digit_val(s[1]) + 10 * digit_val(s[2]) + digit_val(
            s[3],
        )) as i32,
        month: (10 * digit_val(s[5]) + digit_val(s[6])) as i32,
        day: (10 * digit_val(s[8]) + digit_val(s[9])) as i32,
    }
}

/// What parsing a date string yields: the encoded date when the string has the
/// `YYYY-MM-DD` shape and denotes a real calendar day, nothing otherwise.
pub open spec fn parse_date_spec(s: Seq<char>) -> Option<Date> {
    if date_string_ok(s) && encoded_date(s).valid() {
        Some(encoded_date(s))
    } else {
        None
    }
}

/// Parses a `YYYY-MM-DD` string, rejecting malformed text and impossible days.
#[verifier::rlimit(30)]
pub fn parse_date(s: &str) -> (r: Option<Date>)
    ensures
        r == parse_date_spec(s@),
{
    let n = s.unicode_len();
    if n != 10 {
        return None;
    }
    if s.get_char(4) != '-' || s.get_char(7) != '-' {
        return None;
    }
    let y0 = match digit_of(s.get_char(0)) {
        Some(v) => v,
        None => {
            return None;
        },
    };
    let y1 = match digit_of(s.get_char(1)) {
        Some(v) => v,
        None => {
            return None;
        },
    };
    let y2 = match digit_of(s.get_char(2)) {
        Some(v) => v,
        None => {
            return None;
        },
    };
    let y3 = match digit_of(s.get_char(3)) {
        Some(v) => v,
        None => {
            return None;
        },
    };
    let m0 = match digit_of(s.get_char(5)) {
        Some(v) => v,
        None => {
            return None;
        },
    };
    let m1 = match digit_of(s.get_char(6)) {
        Some(v) => v,
        None => {
            return None;
        },
    };
    let a0 = match digit_of(s.get_char(8)) {
        Some(v) => v,
        None => {
            return None;
        },
    };
    let a1 = match digit_of(s.get_char(9)) {
        Some(v) => v,
        None => {
            return None;
        },
    };
    proof {
        assert(date_string_ok(s@));
    }
    let candidate = Date {
        year: 1000 * y0 + 100 * y1 + 10 * y2 + y3,
        month: 10 * m0 + m1,
        day: 10 * a0 + a1,
    };
    proof {
        assert(candidate == encoded_date(s@));
    }
    if candidate.check_valid() {
        Some(candidate)
    } else {
        None
    }
}

/// The display name of a plan for a given day: `Meal Plan DD/MM/YYYY`.
pub open spec fn plan_name_spec(d: Date) -> Seq<char> {
    "Meal Plan "@ + two_digits(d.day as int) + "/"@ + two_digits(d.month as int) + "/"@
        + four_digits(d.year as int)
}

/// Formats the display name of the plan for a given day.
pub fn plan_name(d: Date) -> (r: String)
    requires
        d.valid(),
    ensures
        r@ == plan_name_spec(d),
{
    let mut s = String::from_str("Meal Plan ");
    push_two_digits(&mut s, d.day);
    s.append("/");
    push_two_digits(&mut s, d.month);
    s.append("/");
    push_four_digits(&mut s, d.year);
    proof {
        assert(s@ =~= plan_name_spec(d));
    }
    s
}

/// A date is strictly before its successor.
pub proof fn lemma_next_date_increases(d: Date)
    requires
        d.valid(),
    ensures
        date_lt(d, next_date_spec(d)),
{
}

/// Calendar order is transitive.
pub proof fn lemma_date_lt_trans(a: Date, b: Date, c: Date)
    requires
        date_lt(a, b),
        date_lt(b, c),
    ensures
        date_lt(a, c),
{
}

/// While the calendar does not run out, every day reached by advancing stays
/// valid.
pub proof fn lemma_date_plus_valid(d: Date, n: nat, i: nat)
    requires
        dates_ok(d, n),
        i <= n,
    ensures
        date_plus(d, i).valid(),
        dates_ok(date_plus(d, i), (n - i) as nat),
    decreases i,
{
    if i > 0 {
        lemma_date_plus_shift(d, (i - 1) as nat);
        lemma_date_plus_valid(next_date_spec(d), (n - 1) as nat, (i - 1) as nat);
    }
}

/// Advancing `n + 1` days is advancing one day, then `n` days.
pub proof fn lemma_date_plus_shift(d: Date, n: nat)
    ensures
        date_plus(d, n + 1) == date_plus(next_date_spec(d), n),
    decreases n,
{
    if n == 0 {
        assert(date_plus(d, 1) == next_date_spec(date_plus(d, 0)));
    } else {
        lemma_date_plus_shift(d, (n - 1) as nat);
        assert(date_plus(d, n + 1) == next_date_spec(date_plus(d, n as nat)));
        assert(date_plus(next_date_spec(d), n) == next_date_spec(
            date_plus(next_date_spec(d), (n - 1) as nat),
        ));
    }
}

/// Calendar order is total.
pub proof fn lemma_date_le_total(a: Date, b: Date)
    ensures
        date_le(a, b) || date_le(b, a),
{
}

/// A run of valid days can be extended by one more day while the calendar
/// has not run out.
pub proof fn lemma_dates_ok_extend(d: Date, n: nat)
    requires
        dates_ok(d, n),
        !is_max_date(date_plus(d, n)),
        next_date_spec(date_plus(d, n)).valid(),
    ensures
        dates_ok(d, n + 1),
    decreases n,
{
    if n == 0 {
        assert(date_plus(d, 0) == d);
        assert(dates_ok(next_date_spec(d), 0));
    } else {
        lemma_date_plus_shift(d, (n - 1) as nat);
        lemma_dates_ok_extend(next_date_spec(d), (n - 1) as nat);
    }
}

/// Days reached by advancing are strictly ascending.
pub proof fn lemma_date_plus_ascending(d: Date, n: nat, i: nat, j: nat)
    requires
        dates_ok(d, n),
        i < j <= n,
    ensures
        date_lt(date_plus(d, i), date_plus(d, j)),
    decreases j - i,
{
    lemma_date_plus_valid(d, n, i);
    if j == i + 1 {
        lemma_date_plus_valid(d, n, (j - 1) as nat);
        assert(date_plus(d, j) == next_date_spec(date_plus(d, (j - 1) as nat)));
        lemma_next_date_increases(date_plus(d, i));
    } else {
        lemma_date_plus_ascending(d, n, i, (j - 1) as nat);
        lemma_date_plus_ascending(d, n, (j - 1) as nat, j);
        lemma_date_lt_trans(date_plus(d, i), date_plus(d, (j - 1) as nat), date_plus(d, j));
    }
}

} // verus!
