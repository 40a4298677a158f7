//! The tracking and planning core of a fitness tracker: day-indexed ledgers of
//! meals, drinks and planned workouts, the totals derived from them, workout
//! templates with their muscle coverage, and the session state of the screens
//! that show them.

pub mod calendar;
pub mod catalog;
pub mod text;
pub mod error;
pub mod ledger;
pub mod template;
pub mod summary;
pub mod nutrition;
pub mod hydration;
pub mod workout;
pub mod profile;
pub mod pack;
pub mod session;
