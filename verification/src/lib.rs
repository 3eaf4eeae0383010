//! Core engine of a habit tracker: recurrence patterns, due-date and
//! streak-break evaluation, streak tracking, and completion statistics.
//!
//! All calendar reasoning is done on a verified proleptic Gregorian
//! calendar model ([`date::Date`]); persistence and OS integration live
//! outside this crate and exchange plain values with it.

pub mod date;
pub mod frequency;
pub mod iso;
pub mod models;
pub mod templates;
pub mod schedule;
pub mod stats;
pub mod tracker;
pub mod text;
