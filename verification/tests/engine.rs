use habit_streaks::date::{make_date, Date};
use habit_streaks::frequency::FrequencyPattern;
use habit_streaks::schedule::{breaks_streak, is_habit_due, missed_due_since};
use habit_streaks::tracker::{
    new_streak_state, record_completion, update_habit_streaks, HabitRecord,
};

fn d(year: u32, month: u32, day: u32) -> Date {
    make_date(year, month, day).expect("valid date")
}

#[test]
fn daily_due_iff_not_completed_today_or_later() {
    let daily = FrequencyPattern::Daily;
    // Never completed: due.
    assert!(is_habit_due(&daily, d(2024, 1, 10), None));
    // Last completion strictly before the reference date: due.
    assert!(is_habit_due(&daily, d(2024, 1, 10), Some(d(2024, 1, 9))));
    // Completed on the reference date: not due.
    assert!(!is_habit_due(&daily, d(2024, 1, 10), Some(d(2024, 1, 10))));
    // Completed after the reference date: not due.
    assert!(!is_habit_due(&daily, d(2024, 1, 10), Some(d(2024, 1, 11))));
}

#[test]
fn weekly_due_only_on_scheduled_weekdays() {
    // Mon/Wed/Fri; 2024-01-15 is a Monday.
    let weekly = FrequencyPattern::Weekly { days: vec![1, 3, 5] };
    assert!(is_habit_due(&weekly, d(2024, 1, 15), None));
    // Tuesday is not scheduled.
    assert!(!is_habit_due(&weekly, d(2024, 1, 16), None));
    // Wednesday, already completed that day.
    assert!(!is_habit_due(&weekly, d(2024, 1, 17), Some(d(2024, 1, 17))));
    // Wednesday, last completed Monday.
    assert!(is_habit_due(&weekly, d(2024, 1, 17), Some(d(2024, 1, 15))));
}

#[test]
fn weekly_with_empty_or_invalid_days_is_never_due() {
    let empty = FrequencyPattern::Weekly { days: vec![] };
    let invalid = FrequencyPattern::Weekly { days: vec![0, 8, 99] };
    for day in 15..=21 {
        assert!(!is_habit_due(&empty, d(2024, 1, day), None));
        assert!(!is_habit_due(&invalid, d(2024, 1, day), None));
    }
}

#[test]
fn monthly_due_only_on_scheduled_days_of_month() {
    let monthly = FrequencyPattern::Monthly { days: vec![15] };
    assert!(is_habit_due(&monthly, d(2024, 1, 15), None));
    assert!(!is_habit_due(&monthly, d(2024, 1, 14), None));
    assert!(!is_habit_due(&monthly, d(2024, 1, 15), Some(d(2024, 1, 15))));
    assert!(is_habit_due(&monthly, d(2024, 2, 15), Some(d(2024, 1, 15))));
    let empty = FrequencyPattern::Monthly { days: vec![] };
    assert!(!is_habit_due(&empty, d(2024, 1, 15), None));
}

#[test]
fn interval_due_after_enough_days_elapsed() {
    let every3 = FrequencyPattern::Interval { days: 3 };
    let last = Some(d(2024, 1, 1));
    // Two days elapsed: not yet due.
    assert!(!is_habit_due(&every3, d(2024, 1, 3), last));
    // Three days elapsed: due.
    assert!(is_habit_due(&every3, d(2024, 1, 4), last));
    assert!(is_habit_due(&every3, d(2024, 1, 1), None));
}

#[test]
fn custom_is_always_due_and_never_breaks() {
    let custom = FrequencyPattern::Custom { pattern: String::from("anything") };
    assert!(is_habit_due(&custom, d(2024, 1, 10), Some(d(2024, 1, 10))));
    assert!(!breaks_streak(&custom, d(2024, 1, 1), d(2024, 3, 1)));
}

#[test]
fn daily_break_needs_a_gap_over_one_day() {
    let daily = FrequencyPattern::Daily;
    assert!(!breaks_streak(&daily, d(2024, 1, 10), d(2024, 1, 11)));
    assert!(breaks_streak(&daily, d(2024, 1, 10), d(2024, 1, 12)));
}

#[test]
fn interval_break_needs_a_gap_over_the_spacing() {
    let every3 = FrequencyPattern::Interval { days: 3 };
    assert!(!breaks_streak(&every3, d(2024, 1, 1), d(2024, 1, 4)));
    assert!(breaks_streak(&every3, d(2024, 1, 1), d(2024, 1, 5)));
}

#[test]
fn weekly_break_means_a_skipped_scheduled_day() {
    // Mon/Wed/Fri.
    let weekly = FrequencyPattern::Weekly { days: vec![1, 3, 5] };
    // Monday to Wednesday: nothing scheduled strictly in between.
    assert!(!breaks_streak(&weekly, d(2024, 1, 15), d(2024, 1, 17)));
    // Monday to Friday: Wednesday was skipped.
    assert!(breaks_streak(&weekly, d(2024, 1, 15), d(2024, 1, 19)));
    // Friday to Monday: the weekend carries no scheduled day.
    assert!(!breaks_streak(&weekly, d(2024, 1, 19), d(2024, 1, 22)));
}

#[test]
fn monthly_break_skips_only_over_a_missed_scheduled_date() {
    let monthly = FrequencyPattern::Monthly { days: vec![15] };
    // Jan 15 to Feb 15: no 15th lies strictly between.
    assert!(!breaks_streak(&monthly, d(2024, 1, 15), d(2024, 2, 15)));
    // Jan 15 to Feb 16: Feb 15 was missed.
    assert!(breaks_streak(&monthly, d(2024, 1, 15), d(2024, 2, 16)));
}

#[test]
fn first_completion_starts_streak_at_one() {
    let mut s = new_streak_state();
    record_completion(&mut s, &FrequencyPattern::Daily, d(2024, 1, 10));
    assert_eq!(s.current_streak, 1);
    assert_eq!(s.longest_streak, 1);
    assert_eq!(s.last_completed, Some(d(2024, 1, 10)));
}

#[test]
fn same_day_repeat_leaves_streak_unchanged() {
    let daily = FrequencyPattern::Daily;
    let mut s = new_streak_state();
    record_completion(&mut s, &daily, d(2024, 1, 10));
    record_completion(&mut s, &daily, d(2024, 1, 11));
    assert_eq!(s.current_streak, 2);
    // A second completion on the same calendar date changes nothing.
    record_completion(&mut s, &daily, d(2024, 1, 11));
    assert_eq!(s.current_streak, 2);
    assert_eq!(s.longest_streak, 2);
    assert_eq!(s.last_completed, Some(d(2024, 1, 11)));
}

#[test]
fn daily_three_consecutive_days_reach_streak_three() {
    let daily = FrequencyPattern::Daily;
    let mut s = new_streak_state();
    record_completion(&mut s, &daily, d(2024, 1, 10));
    record_completion(&mut s, &daily, d(2024, 1, 11));
    record_completion(&mut s, &daily, d(2024, 1, 12));
    assert_eq!(s.current_streak, 3);
    assert_eq!(s.longest_streak, 3);
}

#[test]
fn daily_skipped_day_resets_streak_to_one() {
    let daily = FrequencyPattern::Daily;
    let mut s = new_streak_state();
    record_completion(&mut s, &daily, d(2024, 1, 10));
    record_completion(&mut s, &daily, d(2024, 1, 11));
    assert_eq!(s.current_streak, 2);
    assert!(breaks_streak(&daily, d(2024, 1, 11), d(2024, 1, 13)));
    record_completion(&mut s, &daily, d(2024, 1, 13));
    assert_eq!(s.current_streak, 1);
    // The longest streak remembers the best run.
    assert_eq!(s.longest_streak, 2);
}

#[test]
fn weekly_scheduled_days_increment_and_a_skip_resets() {
    // Mon/Wed/Fri around mid-January 2024.
    let weekly = FrequencyPattern::Weekly { days: vec![1, 3, 5] };
    let mut s = new_streak_state();
    record_completion(&mut s, &weekly, d(2024, 1, 15)); // Monday
    record_completion(&mut s, &weekly, d(2024, 1, 17)); // Wednesday
    record_completion(&mut s, &weekly, d(2024, 1, 19)); // Friday
    record_completion(&mut s, &weekly, d(2024, 1, 22)); // next Monday
    assert_eq!(s.current_streak, 4);
    assert_eq!(s.longest_streak, 4);
    // Skip Wednesday Jan 24, complete Friday Jan 26: reset to 1.
    record_completion(&mut s, &weekly, d(2024, 1, 26));
    assert_eq!(s.current_streak, 1);
    assert_eq!(s.longest_streak, 4);
}

#[test]
fn longest_streak_never_decreases_and_dominates_current() {
    let daily = FrequencyPattern::Daily;
    let mut s = new_streak_state();
    let days = [
        d(2024, 1, 1),
        d(2024, 1, 2),
        d(2024, 1, 3),
        d(2024, 1, 6), // break
        d(2024, 1, 7),
        d(2024, 1, 7), // same-day repeat
        d(2024, 1, 9), // break
    ];
    let mut prev_longest = 0;
    for day in days {
        record_completion(&mut s, &daily, day);
        assert!(s.longest_streak >= prev_longest);
        assert!(s.longest_streak >= s.current_streak);
        assert!(s.current_streak >= 0);
        prev_longest = s.longest_streak;
    }
    assert_eq!(s.longest_streak, 3);
    assert_eq!(s.current_streak, 1);
}

#[test]
fn missed_due_walks_each_pattern_kind() {
    // Interval 3, last Jan 1: Jan 4 was due and lies strictly before Jan 10.
    let every3 = FrequencyPattern::Interval { days: 3 };
    assert!(missed_due_since(&every3, d(2024, 1, 1), d(2024, 1, 10)));
    // By Jan 3 nothing was due yet.
    assert!(!missed_due_since(&every3, d(2024, 1, 1), d(2024, 1, 3)));
    // Monthly on the 15th: Feb 15 was missed by Feb 20, not by Feb 10.
    let monthly = FrequencyPattern::Monthly { days: vec![15] };
    assert!(missed_due_since(&monthly, d(2024, 1, 15), d(2024, 2, 20)));
    assert!(!missed_due_since(&monthly, d(2024, 1, 15), d(2024, 2, 10)));
    // Custom patterns are always due on any intermediate day.
    let custom = FrequencyPattern::Custom { pattern: "x".to_string() };
    assert!(missed_due_since(&custom, d(2024, 1, 1), d(2024, 1, 3)));
    assert!(!missed_due_since(&custom, d(2024, 1, 1), d(2024, 1, 2)));
}

fn sweep_fixture() -> Vec<HabitRecord> {
    vec![
        // Daily habit that missed a day: reset expected.
        HabitRecord {
            id: 1,
            frequency: FrequencyPattern::Daily,
            is_active: true,
            last_completed: Some(make_date(2024, 1, 10).unwrap()),
            current_streak: 4,
            longest_streak: 6,
        },
        // Daily habit completed yesterday: nothing missed.
        HabitRecord {
            id: 2,
            frequency: FrequencyPattern::Daily,
            is_active: true,
            last_completed: Some(make_date(2024, 1, 14).unwrap()),
            current_streak: 2,
            longest_streak: 2,
        },
        // Inactive habit: skipped.
        HabitRecord {
            id: 3,
            frequency: FrequencyPattern::Daily,
            is_active: false,
            last_completed: Some(make_date(2024, 1, 1).unwrap()),
            current_streak: 5,
            longest_streak: 5,
        },
        // No live streak: skipped.
        HabitRecord {
            id: 4,
            frequency: FrequencyPattern::Daily,
            is_active: true,
            last_completed: Some(make_date(2024, 1, 1).unwrap()),
            current_streak: 0,
            longest_streak: 7,
        },
        // Never completed: skipped.
        HabitRecord {
            id: 5,
            frequency: FrequencyPattern::Daily,
            is_active: true,
            last_completed: None,
            current_streak: 1,
            longest_streak: 1,
        },
        // Weekly Mon/Wed/Fri completed Friday Jan 12; Jan 15 Monday not
        // yet past strictly before today Jan 15: nothing missed.
        HabitRecord {
            id: 6,
            frequency: FrequencyPattern::Weekly { days: vec![1, 3, 5] },
            is_active: true,
            last_completed: Some(make_date(2024, 1, 12).unwrap()),
            current_streak: 3,
            longest_streak: 3,
        },
    ]
}

#[test]
fn sweep_resets_only_habits_with_a_missed_occurrence() {
    let habits = sweep_fixture();
    let today = d(2024, 1, 15);
    let reset = update_habit_streaks(&habits, today);
    assert_eq!(reset, vec![1]);
    // The walk itself agrees.
    assert!(missed_due_since(&FrequencyPattern::Daily, d(2024, 1, 10), today));
    assert!(!missed_due_since(&FrequencyPattern::Daily, d(2024, 1, 14), today));
}

#[test]
fn sweep_twice_with_no_new_completions_changes_nothing() {
    let mut habits = sweep_fixture();
    let today = d(2024, 1, 15);
    let reset = update_habit_streaks(&habits, today);
    // Apply the decisions, as the persistence layer would.
    for h in habits.iter_mut() {
        if reset.contains(&h.id) {
            h.current_streak = 0;
        }
    }
    let longest_before: Vec<i32> = habits.iter().map(|h| h.longest_streak).collect();
    let second = update_habit_streaks(&habits, today);
    assert!(second.is_empty());
    let longest_after: Vec<i32> = habits.iter().map(|h| h.longest_streak).collect();
    assert_eq!(longest_before, longest_after);
}
