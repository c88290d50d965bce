//! The substitution plan of a school, read from the pages on which the
//! school publishes it, and the timetable of a class as it is after the
//! changes of the plan.
//!
//! [`crawl`] reads the pages of the plan one by one, [`extractor`] finds the
//! day, the table and the link to the next page in a page and turns the rows
//! of the table into [`Row`]s, and [`change`] says what kind of change a row
//! states and makes the change to the lessons of a day. [`iteration`] knows
//! which of the two variants of the base [`timetable`] is in force on a day.
//! [`Davinci`] holds what was last read and answers for a day with the
//! lessons of the class and the rows that could not be applied.
use vstd::prelude::*;

pub mod ascii;
pub mod change;
pub mod crawl;
pub mod date;
pub mod davinci;
pub mod extractor;
pub mod iteration;
pub mod markup;
pub mod pattern;
pub mod schedule;
pub mod text;
pub mod timetable;
pub mod web;

pub use davinci::{Data, Davinci, Row, Timestamp};
