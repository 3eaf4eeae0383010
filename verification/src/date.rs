//! A verified proleptic Gregorian calendar.
//!
//! Habit schedules are decided from calendar dates alone, so the engine
//! models a date as a plain `(year, month, day)` triple and proves its own
//! calendar arithmetic: day numbering, weekday computation, successor and
//! predecessor days, and day differences.

use vstd::prelude::*;

verus! {

/// Largest year the calendar model covers.
pub const MAX_YEAR: u32 = 9999;

/// A calendar date (UTC) in the proleptic Gregorian calendar.
#[derive(Clone, Copy, PartialEq, Eq, Structural, Debug, Hash)]
pub struct Date {
    pub year: u32,
    pub month: u32,
    pub day: u32,
}

/// Gregorian leap-year rule.
pub open spec fn spec_is_leap_year(y: int) -> bool {
    y % 4 == 0 && (y % 100 != 0 || y % 400 == 0)
}

/// Length in days of month `m` of year `y`.
pub open spec fn spec_days_in_month(y: int, m: int) -> int {
    if m == 2 {
        if spec_is_leap_year(y) {
            29
        } else {
            28
        }
    } else if m == 4 || m == 6 || m == 9 || m == 11 {
        30
    } else {
        31
    }
}

/// Days in all years strictly before year `y`, counting from year 1.
pub open spec fn spec_days_before_year(y: int) -> int
    decreases y,
{
    if y <= 1 {
        0
    } else {
        spec_days_before_year(y - 1) + if spec_is_leap_year(y - 1) {
            366int
        } else {
            365int
        }
    }
}

/// Days in all months of year `y` strictly before month `m`.
pub open spec fn spec_days_before_month(y: int, m: int) -> int
    decreases m,
{
    if m <= 1 {
        0
    } else {
        spec_days_before_month(y, m - 1) + spec_days_in_month(y, m - 1)
    }
}

impl Date {
    /// A structurally valid calendar date within the supported year range.
    pub open spec fn valid(self) -> bool {
        &&& 1 <= self.year <= MAX_YEAR
        &&& 1 <= self.month <= 12
        &&& 1 <= self.day <= spec_days_in_month(self.year as int, self.month as int)
    }

    /// Days elapsed since the first supported day; 0001-01-01 has index 0.
    pub open spec fn day_index(self) -> int {
        spec_days_before_year(self.year as int) + spec_days_before_month(
            self.year as int,
            self.month as int,
        ) + self.day - 1
    }

    /// ISO weekday number, Monday = 1 .. Sunday = 7.
    /// 0001-01-01 (day index 0) is a Monday.
    pub open spec fn spec_weekday(self) -> int {
        self.day_index() % 7 + 1
    }

    /// Strict calendar order.
    pub open spec fn spec_lt(self, other: Date) -> bool {
        ||| self.year < other.year
        ||| (self.year == other.year && self.month < other.month)
        ||| (self.year == other.year && self.month == other.month && self.day < other.day)
    }

    pub open spec fn spec_le(self, other: Date) -> bool {
        self.spec_lt(other) || self == other
    }

    /// The last supported day, 9999-12-31.
    pub open spec fn is_max_date(self) -> bool {
        self.year == MAX_YEAR && self.month == 12 && self.day == 31
    }

    /// The first supported day, 0001-01-01.
    pub open spec fn is_min_date(self) -> bool {
        self.year == 1 && self.month == 1 && self.day == 1
    }

    /// The next calendar day.
    pub open spec fn spec_succ(self) -> Date {
        if self.day < spec_days_in_month(self.year as int, self.month as int) {
            Date { year: self.year, month: self.month, day: (self.day + 1) as u32 }
        } else if self.month < 12 {
            Date { year: self.year, month: (self.month + 1) as u32, day: 1 }
        } else {
            Date { year: (self.year + 1) as u32, month: 1, day: 1 }
        }
    }

    /// The previous calendar day.
    pub open spec fn spec_pred(self) -> Date {
        if self.day > 1 {
            Date { year: self.year, month: self.month, day: (self.day - 1) as u32 }
        } else if self.month > 1 {
            Date {
                year: self.year,
                month: (self.month - 1) as u32,
                day: spec_days_in_month(self.year as int, self.month as int - 1) as u32,
            }
        } else {
            Date { year: (self.year - 1) as u32, month: 12, day: 31 }
        }
    }
}

/// Checked constructor: `Some` exactly on valid dates.
pub fn make_date(year: u32, month: u32, day: u32) -> (r: Option<Date>)
    ensures
        r is Some <==> (Date { year, month, day }).valid(),
        r is Some ==> r == Some(Date { year, month, day }),
{
    let d = Date { year, month, day };
    if 1 <= year && year <= MAX_YEAR && 1 <= month && month <= 12 && 1 <= day && day
        <= days_in_month(year, month) {
        Some(d)
    } else {
        None
    }
}

pub fn leap_year(y: u32) -> (r: bool)
    ensures
        r == spec_is_leap_year(y as int),
{
    y % 4 == 0 && (y % 100 != 0 || y % 400 == 0)
}

pub fn days_in_month(y: u32, m: u32) -> (r: u32)
    requires
        1 <= m <= 12,
    ensures
        r == spec_days_in_month(y as int, m as int),
{
    if m == 2 {
        if leap_year(y) {
            29
        } else {
            28
        }
    } else if m == 4 || m == 6 || m == 9 || m == 11 {
        30
    } else {
        31
    }
}

/// Days since 0001-01-01.
pub fn day_number(d: Date) -> (r: u32)
    requires
        d.valid(),
    ensures
        r == d.day_index(),
{
    let mut acc: u32 = 0;
    let mut y: u32 = 1;
    while y < d.year
        invariant
            1 <= y <= d.year <= MAX_YEAR,
            acc == spec_days_before_year(y as int),
            acc <= 366 * (y - 1),
        decreases d.year - y,
    {
        if leap_year(y) {
            acc = acc + 366;
        } else {
            acc = acc + 365;
        }
        y = y + 1;
    }
    let mut m: u32 = 1;
    while m < d.month
        invariant
            1 <= m <= d.month <= 12,
            d.valid(),
            acc == spec_days_before_year(d.year as int) + spec_days_before_month(
                d.year as int,
                m as int,
            ),
            acc <= 366 * (d.year - 1) + 31 * (m - 1),
        decreases d.month - m,
    {
        acc = acc + days_in_month(d.year, m);
        m = m + 1;
    }
    acc + d.day - 1
}

/// ISO weekday number, Monday = 1 .. Sunday = 7.
pub fn weekday(d: Date) -> (r: u32)
    requires
        d.valid(),
    ensures
        r == d.spec_weekday(),
        1 <= r <= 7,
{
    day_number(d) % 7 + 1
}

/// Signed number of days from `a` to `b` (positive when `b` is later).
pub fn days_between(a: Date, b: Date) -> (r: i64)
    requires
        a.valid(),
        b.valid(),
    ensures
        r == b.day_index() - a.day_index(),
{
    let na = day_number(a);
    let nb = day_number(b);
    nb as i64 - na as i64
}

pub fn date_lt(a: Date, b: Date) -> (r: bool)
    ensures
        r == a.spec_lt(b),
{
    a.year < b.year || (a.year == b.year && (a.month < b.month || (a.month == b.month && a.day
        < b.day)))
}

pub fn date_le(a: Date, b: Date) -> (r: bool)
    ensures
        r == a.spec_le(b),
{
    a.year < b.year || (a.year == b.year && (a.month < b.month || (a.month == b.month && a.day
        <= b.day)))
}

/// The next calendar day.
pub fn next_day(d: Date) -> (r: Date)
    requires
        d.valid(),
        !d.is_max_date(),
    ensures
        r == d.spec_succ(),
        r.valid(),
        r.day_index() == d.day_index() + 1,
        d.spec_lt(r),
{
    proof {
        lemma_succ_index(d);
    }
    if d.day < days_in_month(d.year, d.month) {
        Date { year: d.year, month: d.month, day: d.day + 1 }
    } else if d.month < 12 {
        Date { year: d.year, month: d.month + 1, day: 1 }
    } else {
        Date { year: d.year + 1, month: 1, day: 1 }
    }
}

/// The previous calendar day.
pub fn prev_day(d: Date) -> (r: Date)
    requires
        d.valid(),
        !d.is_min_date(),
    ensures
        r == d.spec_pred(),
        r.valid(),
        r.day_index() == d.day_index() - 1,
        r.spec_lt(d),
{
    proof {
        lemma_pred_index(d);
    }
    if d.day > 1 {
        Date { year: d.year, month: d.month, day: d.day - 1 }
    } else if d.month > 1 {
        Date { year: d.year, month: d.month - 1, day: days_in_month(d.year, d.month - 1) }
    } else {
        Date { year: d.year - 1, month: 12, day: 31 }
    }
}

/// A full year holds the months' days plus nothing else.
proof fn lemma_year_length(y: int)
    ensures
        spec_days_before_month(y, 12) + spec_days_in_month(y, 12) == if spec_is_leap_year(y) {
            366int
        } else {
            365int
        },
{
    reveal_with_fuel(spec_days_before_month, 13);
}

/// The successor of a non-final valid date is valid and lies exactly one
/// day later in the day numbering.
pub proof fn lemma_succ_index(d: Date)
    requires
        d.valid(),
        !d.is_max_date(),
    ensures
        d.spec_succ().valid(),
        d.spec_succ().day_index() == d.day_index() + 1,
        d.spec_lt(d.spec_succ()),
{
    let y = d.year as int;
    let m = d.month as int;
    if d.day < spec_days_in_month(y, m) {
        // same month
    } else if d.month < 12 {
        assert(spec_days_before_month(y, m + 1) == spec_days_before_month(y, m)
            + spec_days_in_month(y, m));
    } else {
        lemma_year_length(y);
        assert(spec_days_before_year(y + 1) == spec_days_before_year(y) + if spec_is_leap_year(
            y,
        ) {
            366int
        } else {
            365int
        });
    }
}

/// The predecessor of a non-initial valid date is valid and lies exactly
/// one day earlier in the day numbering.
pub proof fn lemma_pred_index(d: Date)
    requires
        d.valid(),
        !d.is_min_date(),
    ensures
        d.spec_pred().valid(),
        d.spec_pred().day_index() == d.day_index() - 1,
        d.spec_pred().spec_lt(d),
{
    let y = d.year as int;
    let m = d.month as int;
    if d.day > 1 {
        // same month
    } else if d.month > 1 {
        assert(spec_days_before_month(y, m) == spec_days_before_month(y, m - 1)
            + spec_days_in_month(y, m - 1));
    } else {
        lemma_year_length(y - 1);
        assert(spec_days_before_year(y) == spec_days_before_year(y - 1) + if spec_is_leap_year(
            y - 1,
        ) {
            366int
        } else {
            365int
        });
    }
}

/// No valid date lies strictly between a date and its successor.
pub proof fn lemma_succ_immediate(d: Date, e: Date)
    requires
        d.valid(),
        e.valid(),
        !d.is_max_date(),
        d.spec_lt(e),
    ensures
        d.spec_succ().spec_le(e),
{
}

/// A date strictly below another valid date is not the final date.
pub proof fn lemma_lt_not_max(d: Date, e: Date)
    requires
        d.valid(),
        e.valid(),
        d.spec_lt(e),
    ensures
        !d.is_max_date(),
{
}

} // verus!
