//! Streak tracking: recording completions and the maintenance sweep.
//!
//! A habit's streak fields form a small state machine. Recording a
//! completion either leaves the streak unchanged (a same-day repeat),
//! starts it at 1 (first completion or a break), or increments it; the
//! longest streak is the running maximum. The maintenance sweep decides,
//! for every active habit, whether a due occurrence was missed since the
//! last completion, in which case the current streak is zeroed.

use vstd::prelude::*;
use crate::date::Date;
use crate::frequency::{FrequencyModel, FrequencyPattern};
use crate::schedule::{breaks_streak, missed_due_since, spec_breaks_streak,
    spec_missed_due_between};

verus! {

/// The streak-relevant state of one habit.
#[derive(Debug, Clone, Copy, PartialEq)]
pub struct StreakState {
    pub current_streak: i32,
    pub longest_streak: i32,
    pub last_completed: Option<Date>,
}

impl StreakState {
    /// Streaks are non-negative, the longest streak dominates the current
    /// one, and the last completion (if any) is a real date.
    pub open spec fn wf(self) -> bool {
        &&& 0 <= self.current_streak <= self.longest_streak
        &&& match self.last_completed {
            None => true,
            Some(d) => d.valid(),
        }
    }

    /// A freshly created habit: no completions, both streaks at zero.
    pub open spec fn is_fresh(self) -> bool {
        self.current_streak == 0 && self.longest_streak == 0 && self.last_completed is None
    }
}

/// A fresh habit's streak state.
pub fn new_streak_state() -> (r: StreakState)
    ensures
        r.is_fresh(),
        r.wf(),
{
    StreakState { current_streak: 0, longest_streak: 0, last_completed: None }
}

/// The current streak after recording a completion on `d`.
pub open spec fn spec_new_current_streak(s: StreakState, p: FrequencyModel, d: Date) -> int {
    match s.last_completed {
        None => 1,
        Some(last) => if last == d {
            s.current_streak as int
        } else if spec_breaks_streak(p, last, d) {
            1
        } else {
            s.current_streak + 1
        },
    }
}

/// The whole streak state after recording a completion on `d`.
pub open spec fn spec_record(s: StreakState, p: FrequencyModel, d: Date) -> StreakState {
    let new_current = spec_new_current_streak(s, p, d);
    StreakState {
        current_streak: new_current as i32,
        longest_streak: (if s.longest_streak >= new_current {
            s.longest_streak as int
        } else {
            new_current
        }) as i32,
        last_completed: Some(d),
    }
}

/// Record a completion on `completion_date`: decide the new current
/// streak, raise the longest streak to match if needed, and remember the
/// completion date.
pub fn record_completion(
    state: &mut StreakState,
    frequency: &FrequencyPattern,
    completion_date: Date,
)
    requires
        old(state).wf(),
        completion_date.valid(),
        old(state).current_streak < i32::MAX,
    ensures
        *final(state) == spec_record(*old(state), frequency@, completion_date),
        final(state).wf(),
        final(state).longest_streak >= old(state).longest_streak,
        final(state).longest_streak >= final(state).current_streak,
{
    let new_current: i32 = match state.last_completed {
        None => 1,
        Some(last) => {
            if last == completion_date {
                state.current_streak
            } else if breaks_streak(frequency, last, completion_date) {
                1
            } else {
                state.current_streak + 1
            }
        },
    };
    let new_longest: i32 = if state.longest_streak >= new_current {
        state.longest_streak
    } else {
        new_current
    };
    state.current_streak = new_current;
    state.longest_streak = new_longest;
    state.last_completed = Some(completion_date);
}

/// The streak-relevant row of one habit, as the sweep sees it.
#[derive(Debug, Clone, PartialEq)]
pub struct HabitRecord {
    pub id: i64,
    pub frequency: FrequencyPattern,
    pub is_active: bool,
    pub last_completed: Option<Date>,
    pub current_streak: i32,
    pub longest_streak: i32,
}

impl HabitRecord {
    pub open spec fn wf(self) -> bool {
        &&& 0 <= self.current_streak <= self.longest_streak
        &&& match self.last_completed {
            None => true,
            Some(d) => d.valid(),
        }
    }
}

/// Whether the sweep resets this habit's streak on `today`: it is active,
/// has a live streak and a last completion, and a due occurrence was
/// missed strictly between the last completion and today.
pub open spec fn spec_streak_reset_due(h: HabitRecord, today: Date) -> bool {
    &&& h.is_active
    &&& h.current_streak > 0
    &&& match h.last_completed {
        None => false,
        Some(last) => spec_missed_due_between(h.frequency@, last, today),
    }
}

/// One habit's state after the sweep: the current streak is zeroed when a
/// reset is due; nothing else ever changes.
pub open spec fn spec_sweep_one(h: HabitRecord, today: Date) -> HabitRecord {
    if spec_streak_reset_due(h, today) {
        HabitRecord {
            id: h.id,
            frequency: h.frequency,
            is_active: h.is_active,
            last_completed: h.last_completed,
            current_streak: 0,
            longest_streak: h.longest_streak,
        }
    } else {
        h
    }
}

/// The ids the sweep resets, in input order.
pub open spec fn spec_reset_ids(s: Seq<HabitRecord>, today: Date) -> Seq<i64>
    decreases s.len(),
{
    if s.len() == 0 {
        Seq::empty()
    } else {
        spec_reset_ids(s.drop_last(), today) + if spec_streak_reset_due(s.last(), today) {
            seq![s.last().id]
        } else {
            Seq::empty()
        }
    }
}

/// The maintenance sweep's decisions: which habits' streaks must be reset
/// to zero on `today`. The caller applies the resets; their outcome per
/// habit is `spec_sweep_one`.
pub fn update_habit_streaks(habits: &Vec<HabitRecord>, today: Date) -> (reset_ids: Vec<i64>)
    requires
        today.valid(),
        forall|i: int| 0 <= i < habits@.len() ==> (#[trigger] habits@[i]).wf(),
    ensures
        reset_ids@ == spec_reset_ids(habits@, today),
{
    let mut reset_ids: Vec<i64> = Vec::new();
    let mut i: usize = 0;
    while i < habits.len()
        invariant
            i <= habits@.len(),
            today.valid(),
            forall|k: int| 0 <= k < habits@.len() ==> (#[trigger] habits@[k]).wf(),
            reset_ids@ == spec_reset_ids(habits@.take(i as int), today),
        decreases habits@.len() - i,
    {
        let h = &habits[i];
        let broken = if h.is_active && h.current_streak > 0 {
            match h.last_completed {
                Some(last) => missed_due_since(&h.frequency, last, today),
                None => false,
            }
        } else {
            false
        };
        if broken {
            reset_ids.push(h.id);
        }
        proof {
            assert(habits@.take(i + 1).drop_last() =~= habits@.take(i as int));
            assert(habits@.take(i + 1).last() == habits@[i as int]);
        }
        i = i + 1;
    }
    proof {
        assert(habits@.take(habits@.len() as int) =~= habits@);
    }
    reset_ids
}

/// Recording a second completion on the same calendar date changes
/// nothing: same-day repeats are idempotent for streak purposes.
pub proof fn lemma_same_day_completion_idempotent(
    s: StreakState,
    p: FrequencyModel,
    d: Date,
)
    requires
        s.wf(),
    ensures
        spec_record(spec_record(s, p, d), p, d) == spec_record(s, p, d),
{
}

/// The longest streak never decreases, and always dominates the current
/// streak, after recording a completion.
pub proof fn lemma_record_longest_monotone(s: StreakState, p: FrequencyModel, d: Date)
    requires
        s.wf(),
        s.current_streak < i32::MAX,
        d.valid(),
    ensures
        spec_record(s, p, d).wf(),
        spec_record(s, p, d).longest_streak >= s.longest_streak,
        spec_record(s, p, d).longest_streak >= spec_record(s, p, d).current_streak,
{
}

/// A daily habit completed on three consecutive days, starting fresh,
/// reaches a streak of 3, and the longest streak matches.
pub proof fn lemma_daily_three_consecutive(s0: StreakState, d: Date)
    requires
        s0.is_fresh(),
        d.valid(),
        !d.is_max_date(),
        !d.spec_succ().is_max_date(),
    ensures
        ({
            let d1 = d.spec_succ();
            let d2 = d1.spec_succ();
            let s3 = spec_record(
                spec_record(spec_record(s0, FrequencyModel::Daily, d), FrequencyModel::Daily, d1),
                FrequencyModel::Daily,
                d2,
            );
            s3.current_streak == 3 && s3.longest_streak == 3
        }),
{
    crate::date::lemma_succ_index(d);
    crate::date::lemma_succ_index(d.spec_succ());
}

/// A daily habit completed on day `d` and next on the day after next
/// (one day skipped) has its streak broken, and recording that completion
/// resets the current streak to 1.
pub proof fn lemma_daily_skip_resets(s: StreakState, d: Date)
    requires
        s.wf(),
        s.current_streak < i32::MAX,
        s.last_completed == Some(d),
        d.valid(),
        !d.is_max_date(),
        !d.spec_succ().is_max_date(),
    ensures
        spec_breaks_streak(FrequencyModel::Daily, d, d.spec_succ().spec_succ()),
        spec_record(s, FrequencyModel::Daily, d.spec_succ().spec_succ()).current_streak == 1,
{
    crate::date::lemma_succ_index(d);
    crate::date::lemma_succ_index(d.spec_succ());
}

/// For a weekly habit, a completion on a new calendar date continues the
/// streak exactly when no scheduled weekday lies strictly between the two
/// completions, and resets it to 1 exactly when one does.
pub proof fn lemma_weekly_continue_or_reset(s: StreakState, days: Seq<u32>, cur: Date)
    requires
        s.wf(),
        s.current_streak < i32::MAX,
        s.last_completed is Some,
        s.last_completed.unwrap() != cur,
    ensures
        ({
            let prev = s.last_completed.unwrap();
            let p = FrequencyModel::Weekly { days };
            let r = spec_record(s, p, cur);
            &&& !spec_breaks_streak(p, prev, cur) ==> r.current_streak == s.current_streak + 1
            &&& spec_breaks_streak(p, prev, cur) ==> r.current_streak == 1
        }),
{
}

/// The sweep never touches the longest streak, and preserves
/// well-formedness.
pub proof fn lemma_sweep_longest_untouched(h: HabitRecord, today: Date)
    requires
        h.wf(),
    ensures
        spec_sweep_one(h, today).wf(),
        spec_sweep_one(h, today).longest_streak == h.longest_streak,
        spec_sweep_one(h, today).last_completed == h.last_completed,
        spec_sweep_one(h, today).frequency == h.frequency,
{
}

/// Sweeping an already-swept habit changes nothing: the sweep is
/// idempotent.
pub proof fn lemma_sweep_idempotent(h: HabitRecord, today: Date)
    ensures
        spec_sweep_one(spec_sweep_one(h, today), today) == spec_sweep_one(h, today),
{
}

/// After one sweep, a second sweep over the same habits with no new
/// completions resets nothing.
pub proof fn lemma_second_sweep_resets_nothing(s: Seq<HabitRecord>, today: Date)
    ensures
        spec_reset_ids(s.map_values(|h: HabitRecord| spec_sweep_one(h, today)), today)
            =~= Seq::<i64>::empty(),
    decreases s.len(),
{
    let swept = s.map_values(|h: HabitRecord| spec_sweep_one(h, today));
    if s.len() > 0 {
        lemma_second_sweep_resets_nothing(s.drop_last(), today);
        assert(swept.drop_last() =~= s.drop_last().map_values(
            |h: HabitRecord| spec_sweep_one(h, today),
        ));
        assert(swept.last() == spec_sweep_one(s.last(), today));
        lemma_sweep_idempotent(s.last(), today);
    }
}

} // verus!
