//! Completion statistics: expected occurrences, completion rate, and the
//! trailing 30-day completion map.
//!
//! The completion rate is an exact rational, kept as a clamped
//! numerator/denominator pair so that it is provably within [0, 1];
//! callers may divide the two fields when they want a floating-point
//! number.

use vstd::prelude::*;
use crate::date::{Date, prev_day};
use crate::frequency::{FrequencyModel, FrequencyPattern};
use crate::iso::{iso_date_string, spec_iso_chars};

verus! {

/// Derived, read-only statistics for one habit.
#[derive(Debug, Clone, PartialEq)]
pub struct HabitStats {
    pub habit_id: i64,
    /// Clamped completion rate, as the exact fraction
    /// `completion_rate_num / completion_rate_den` in [0, 1].
    pub completion_rate_num: u32,
    pub completion_rate_den: u32,
    pub current_streak: i32,
    pub longest_streak: i32,
    pub total_completions: u32,
    /// One entry per day, today first, going back 30 calendar days: the
    /// ISO date and whether at least one completion fell on it.
    pub last_30_days: Vec<(String, bool)>,
}

/// Expected occurrences in a trailing 30-day window, by pattern kind.
pub open spec fn spec_expected_completions(p: FrequencyModel) -> int {
    match p {
        FrequencyModel::Daily => 30,
        FrequencyModel::Weekly { days } => 4 * days.len() as int + 1,
        FrequencyModel::Monthly { .. } => 1,
        FrequencyModel::Interval { days } => 30int / days as int,
        FrequencyModel::Custom { .. } => 30,
    }
}

/// Largest weekly day-list length whose estimate still fits in `u32`.
pub const MAX_WEEKLY_DAYS: usize = 1073741823;

/// Expected occurrences in a trailing 30-day window.
pub fn expected_completions(frequency: &FrequencyPattern) -> (r: u32)
    requires
        frequency@ matches FrequencyModel::Interval { days } ==> days >= 1,
        frequency@ matches FrequencyModel::Weekly { days } ==> days.len() <= MAX_WEEKLY_DAYS,
    ensures
        r == spec_expected_completions(frequency@),
{
    match frequency {
        FrequencyPattern::Daily => 30,
        FrequencyPattern::Weekly { days } => 4 * (days.len() as u32) + 1,
        FrequencyPattern::Monthly { .. } => 1,
        FrequencyPattern::Interval { days } => 30 / *days,
        FrequencyPattern::Custom { .. } => 30,
    }
}

/// The clamped completion rate as a fraction: all-time completions over
/// the 30-day expectation, capped at 1, and 0 when nothing is expected.
/// The numerator never exceeds the denominator, so the rate always lies
/// in [0, 1].
pub fn completion_rate(total_completions: u32, expected: u32) -> (r: (u32, u32))
    ensures
        r.1 >= 1,
        r.0 <= r.1,
        expected == 0 ==> r == (0u32, 1u32),
        expected >= 1 ==> r.1 == expected,
        expected >= 1 ==> r.0 == if total_completions <= expected {
            total_completions as int
        } else {
            expected as int
        },
{
    if expected == 0 {
        (0, 1)
    } else if total_completions <= expected {
        (total_completions, expected)
    } else {
        (expected, expected)
    }
}

/// Linear membership test over completion dates.
pub fn contains_date(v: &Vec<Date>, d: Date) -> (r: bool)
    ensures
        r == v@.contains(d),
{
    let mut i: usize = 0;
    while i < v.len()
        invariant
            i <= v@.len(),
            forall|j: int| 0 <= j < i ==> v@[j] != d,
        decreases v@.len() - i,
    {
        if v[i] == d {
            return true;
        }
        i = i + 1;
    }
    false
}

/// The date `k` days before `d`.
pub open spec fn spec_days_back(d: Date, k: nat) -> Date
    decreases k,
{
    if k == 0 {
        d
    } else {
        spec_days_back(d, (k - 1) as nat).spec_pred()
    }
}

/// Walking back stays valid and moves the day index back one day at a
/// time, as long as the calendar does not run out.
pub proof fn lemma_days_back(d: Date, k: nat)
    requires
        d.valid(),
        d.day_index() >= k,
    ensures
        spec_days_back(d, k).valid(),
        spec_days_back(d, k).day_index() == d.day_index() - k,
    decreases k,
{
    if k > 0 {
        let prev = spec_days_back(d, (k - 1) as nat);
        lemma_days_back(d, (k - 1) as nat);
        assert(!prev.is_min_date()) by {
            if prev.is_min_date() {
                assert(prev.day_index() == 0) by {
                    reveal_with_fuel(crate::date::spec_days_before_year, 2);
                    reveal_with_fuel(crate::date::spec_days_before_month, 2);
                }
            }
        }
        crate::date::lemma_pred_index(prev);
    }
}

/// One row of the trailing-30-day map is correct for its day.
pub open spec fn spec_day_entry_ok(
    entry: (String, bool),
    today: Date,
    completion_dates: Seq<Date>,
    i: int,
) -> bool {
    &&& entry.0@ == spec_iso_chars(spec_days_back(today, i as nat))
    &&& entry.1 == completion_dates.contains(spec_days_back(today, i as nat))
}

/// Assemble the read-only statistics report for one habit from its stored
/// counters and the set of days in the trailing window on which at least
/// one completion fell.
pub fn compute_stats(
    habit_id: i64,
    frequency: &FrequencyPattern,
    total_completions: u32,
    current_streak: i32,
    longest_streak: i32,
    completion_dates: &Vec<Date>,
    today: Date,
) -> (r: HabitStats)
    requires
        today.valid(),
        today.day_index() >= 29,
        frequency@ matches FrequencyModel::Interval { days } ==> days >= 1,
        frequency@ matches FrequencyModel::Weekly { days } ==> days.len() <= MAX_WEEKLY_DAYS,
    ensures
        r.habit_id == habit_id,
        r.current_streak == current_streak,
        r.longest_streak == longest_streak,
        r.total_completions == total_completions,
        r.completion_rate_den >= 1,
        r.completion_rate_num <= r.completion_rate_den,
        spec_expected_completions(frequency@) >= 1 ==> r.completion_rate_den
            == spec_expected_completions(frequency@) && r.completion_rate_num == if
            total_completions <= spec_expected_completions(frequency@) {
            total_completions as int
        } else {
            spec_expected_completions(frequency@)
        },
        spec_expected_completions(frequency@) == 0 ==> r.completion_rate_num == 0
            && r.completion_rate_den == 1,
        r.last_30_days@.len() == 30,
        forall|i: int| 0 <= i < 30 ==> spec_day_entry_ok(
            #[trigger] r.last_30_days@[i],
            today,
            completion_dates@,
            i,
        ),
{
    let expected = expected_completions(frequency);
    let rate = completion_rate(total_completions, expected);
    let mut last_30_days: Vec<(String, bool)> = Vec::new();
    let mut cur = today;
    let mut i: usize = 0;
    while i < 30
        invariant
            i <= 30,
            today.valid(),
            today.day_index() >= 29,
            i < 30 ==> cur == spec_days_back(today, i as nat),
            i < 30 ==> cur.valid(),
            i < 30 ==> cur.day_index() == today.day_index() - i,
            last_30_days@.len() == i,
            forall|j: int| 0 <= j < i ==> spec_day_entry_ok(
                #[trigger] last_30_days@[j],
                today,
                completion_dates@,
                j,
            ),
        decreases 30 - i,
    {
        let name = iso_date_string(cur);
        let flag = contains_date(completion_dates, cur);
        last_30_days.push((name, flag));
        i = i + 1;
        if i < 30 {
            proof {
                lemma_days_back(today, i as nat);
                assert(!cur.is_min_date()) by {
                    if cur.is_min_date() {
                        reveal_with_fuel(crate::date::spec_days_before_year, 2);
                        reveal_with_fuel(crate::date::spec_days_before_month, 2);
                    }
                }
            }
            cur = prev_day(cur);
        }
    }
    HabitStats {
        habit_id,
        completion_rate_num: rate.0,
        completion_rate_den: rate.1,
        current_streak,
        longest_streak,
        total_completions,
        last_30_days,
    }
}

} // verus!
