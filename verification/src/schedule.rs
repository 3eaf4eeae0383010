//! Due-date and streak-break evaluation.
//!
//! `is_habit_due` decides whether a habit is due on a reference date.
//! `breaks_streak` decides whether a due occurrence was missed strictly
//! between two completion dates, which is the authoritative notion of
//! "consecutive" for every recurrence kind. `missed_due_since` is the
//! day-by-day walk used by the maintenance sweep.

use vstd::prelude::*;
use crate::date::{Date, date_lt, days_between, next_day, weekday, lemma_lt_not_max,
    lemma_succ_index, lemma_succ_immediate};
use crate::frequency::{FrequencyModel, FrequencyPattern};

verus! {

/// No completion yet, or the last one lies strictly before the reference
/// date.
pub open spec fn spec_not_completed_on_or_after(last_completed: Option<Date>, reference_date: Date) -> bool {
    match last_completed {
        None => true,
        Some(last) => last.spec_lt(reference_date),
    }
}

/// Whether a habit with the given pattern is due on `reference_date`.
pub open spec fn spec_is_due(
    p: FrequencyModel,
    reference_date: Date,
    last_completed: Option<Date>,
) -> bool {
    match p {
        FrequencyModel::Daily => spec_not_completed_on_or_after(last_completed, reference_date),
        FrequencyModel::Weekly { days } => days.contains(reference_date.spec_weekday() as u32)
            && spec_not_completed_on_or_after(last_completed, reference_date),
        FrequencyModel::Monthly { days } => days.contains(reference_date.day)
            && spec_not_completed_on_or_after(last_completed, reference_date),
        FrequencyModel::Interval { days } => match last_completed {
            None => true,
            Some(last) => reference_date.day_index() - last.day_index() >= days,
        },
        FrequencyModel::Custom { .. } => true,
    }
}

/// Whether `c` is one of the pattern's scheduled calendar days. Only
/// weekly and monthly patterns name calendar days.
pub open spec fn spec_pattern_day(p: FrequencyModel, c: Date) -> bool {
    match p {
        FrequencyModel::Weekly { days } => days.contains(c.spec_weekday() as u32),
        FrequencyModel::Monthly { days } => days.contains(c.day),
        _ => false,
    }
}

/// Whether recording a completion on `current_date` breaks a streak whose
/// previous completion fell on `prev`: a due occurrence lies strictly
/// between the two dates (or, for daily and interval patterns, the gap in
/// days exceeds the allowed spacing).
pub open spec fn spec_breaks_streak(p: FrequencyModel, prev: Date, current_date: Date) -> bool {
    match p {
        FrequencyModel::Daily => current_date.day_index() - prev.day_index() > 1,
        FrequencyModel::Weekly { .. } => exists|c: Date|
            #[trigger] spec_pattern_day(p, c) && c.valid() && prev.spec_lt(c) && c.spec_lt(
                current_date,
            ),
        FrequencyModel::Monthly { .. } => exists|c: Date|
            #[trigger] spec_pattern_day(p, c) && c.valid() && prev.spec_lt(c) && c.spec_lt(
                current_date,
            ),
        FrequencyModel::Interval { days } => current_date.day_index() - prev.day_index() > days,
        FrequencyModel::Custom { .. } => false,
    }
}

/// A due occurrence was missed strictly between `last` (the last
/// completion) and `today`.
pub open spec fn spec_missed_due_between(p: FrequencyModel, last: Date, today: Date) -> bool {
    exists|c: Date|
        #[trigger] spec_is_due(p, c, Some(last)) && c.valid() && last.spec_lt(c) && c.spec_lt(
            today,
        )
}

/// A daily habit is due exactly when it has never been completed or its
/// last completion lies strictly before the reference date.
pub proof fn lemma_daily_due(reference_date: Date, last_completed: Option<Date>)
    ensures
        spec_is_due(FrequencyModel::Daily, reference_date, last_completed) <==> (
        last_completed is None || last_completed.unwrap().spec_lt(reference_date)),
{
}

/// Linear membership test.
pub fn contains_u32(v: &Vec<u32>, x: u32) -> (r: bool)
    ensures
        r == v@.contains(x),
{
    let mut i: usize = 0;
    while i < v.len()
        invariant
            i <= v@.len(),
            forall|j: int| 0 <= j < i ==> v@[j] != x,
        decreases v@.len() - i,
    {
        if v[i] == x {
            return true;
        }
        i = i + 1;
    }
    false
}

/// Whether `c` is one of the pattern's scheduled calendar days.
fn pattern_day(frequency: &FrequencyPattern, c: Date) -> (r: bool)
    requires
        c.valid(),
    ensures
        r == spec_pattern_day(frequency@, c),
{
    match frequency {
        FrequencyPattern::Weekly { days } => contains_u32(days, weekday(c)),
        FrequencyPattern::Monthly { days } => contains_u32(days, c.day),
        _ => false,
    }
}

/// Walk each day strictly between `prev_date` and `current_date` and
/// report whether any of them is a scheduled pattern day.
fn any_pattern_day_between(frequency: &FrequencyPattern, prev_date: Date, current_date: Date) -> (r:
    bool)
    requires
        prev_date.valid(),
        current_date.valid(),
    ensures
        r == exists|c: Date|
            #[trigger] spec_pattern_day(frequency@, c) && c.valid() && prev_date.spec_lt(c)
                && c.spec_lt(current_date),
{
    let mut check_date = prev_date;
    while date_lt(check_date, current_date)
        invariant
            prev_date.valid(),
            current_date.valid(),
            check_date.valid(),
            prev_date.spec_le(check_date),
            check_date.spec_le(current_date) || check_date == prev_date,
            forall|c: Date|
                #[trigger] spec_pattern_day(frequency@, c) && c.valid() && prev_date.spec_lt(c)
                    && c.spec_le(check_date) && c.spec_lt(current_date) ==> false,
        decreases
                current_date.year - check_date.year,
                12 - check_date.month,
                31 - check_date.day,
    {
        proof {
            lemma_lt_not_max(check_date, current_date);
            lemma_succ_immediate(check_date, current_date);
        }
        check_date = next_day(check_date);
        if pattern_day(frequency, check_date) && date_lt(check_date, current_date) {
            return true;
        }
    }
    false
}

/// Whether a habit with the given pattern is due on `reference_date`,
/// given its last completion.
pub fn is_habit_due(
    frequency: &FrequencyPattern,
    reference_date: Date,
    last_completed: Option<Date>,
) -> (r: bool)
    requires
        reference_date.valid(),
        last_completed matches Some(l) ==> l.valid(),
    ensures
        r == spec_is_due(frequency@, reference_date, last_completed),
{
    match frequency {
        FrequencyPattern::Daily => match last_completed {
            Some(last) => date_lt(last, reference_date),
            None => true,
        },
        FrequencyPattern::Weekly { days } => {
            let wd = weekday(reference_date);
            if !contains_u32(days, wd) {
                return false;
            }
            match last_completed {
                Some(last) => date_lt(last, reference_date),
                None => true,
            }
        },
        FrequencyPattern::Monthly { days } => {
            if !contains_u32(days, reference_date.day) {
                return false;
            }
            match last_completed {
                Some(last) => date_lt(last, reference_date),
                None => true,
            }
        },
        FrequencyPattern::Interval { days } => match last_completed {
            Some(last) => days_between(last, reference_date) >= *days as i64,
            None => true,
        },
        FrequencyPattern::Custom { .. } => true,
    }
}

/// Whether recording a completion on `current_date` breaks a streak whose
/// previous completion fell on `previous_completion`.
pub fn breaks_streak(
    frequency: &FrequencyPattern,
    previous_completion: Date,
    current_date: Date,
) -> (r: bool)
    requires
        previous_completion.valid(),
        current_date.valid(),
    ensures
        r == spec_breaks_streak(frequency@, previous_completion, current_date),
{
    match frequency {
        FrequencyPattern::Daily => days_between(previous_completion, current_date) > 1,
        FrequencyPattern::Weekly { .. } => any_pattern_day_between(
            frequency,
            previous_completion,
            current_date,
        ),
        FrequencyPattern::Monthly { .. } => any_pattern_day_between(
            frequency,
            previous_completion,
            current_date,
        ),
        FrequencyPattern::Interval { days } => days_between(previous_completion, current_date)
            > *days as i64,
        FrequencyPattern::Custom { .. } => false,
    }
}

/// Walk each day strictly between `last` and `today` and report whether
/// the habit was due on any of them — a missed occurrence.
pub fn missed_due_since(frequency: &FrequencyPattern, last: Date, today: Date) -> (r: bool)
    requires
        last.valid(),
        today.valid(),
    ensures
        r == spec_missed_due_between(frequency@, last, today),
{
    let mut check_date = last;
    while date_lt(check_date, today)
        invariant
            last.valid(),
            today.valid(),
            check_date.valid(),
            last.spec_le(check_date),
            check_date.spec_le(today) || check_date == last,
            forall|c: Date|
                #[trigger] spec_is_due(frequency@, c, Some(last)) && c.valid() && last.spec_lt(c)
                    && c.spec_le(check_date) && c.spec_lt(today) ==> false,
        decreases today.year - check_date.year, 12 - check_date.month, 31 - check_date.day,
    {
        proof {
            lemma_lt_not_max(check_date, today);
            lemma_succ_immediate(check_date, today);
        }
        check_date = next_day(check_date);
        if is_habit_due(frequency, check_date, Some(last)) && date_lt(check_date, today) {
            return true;
        }
    }
    false
}

} // verus!
