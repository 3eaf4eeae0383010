//! Plain data carried alongside habits and notes.

use vstd::prelude::*;

verus! {

/// A tag habits can be grouped under.
#[derive(Debug, Clone, PartialEq)]
pub struct HabitTag {
    pub id: i64,
    pub name: String,
    /// UI color as a hex code.
    pub color: Option<String>,
}

/// A reminder attached to a habit.
#[derive(Debug, Clone, PartialEq)]
pub struct HabitReminder {
    pub id: i64,
    pub habit_id: i64,
    /// Time of day, as `HH:MM`.
    pub time: String,
    /// Days to remind on (1..=7, Monday = 1).
    pub days: Vec<u32>,
    pub is_enabled: bool,
}

/// A tag notes can be grouped under.
#[derive(Debug, Clone, PartialEq)]
pub struct NoteTag {
    pub id: i64,
    pub name: String,
    /// UI color as a hex code.
    pub color: Option<String>,
}

} // verus!
