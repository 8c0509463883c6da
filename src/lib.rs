//! A lazily initialised, write-once cell with a one-time latch and poisoning,
//! and a lazily compiled regular expression built on it.

pub mod cell;
pub mod lazy_regex;
pub mod pattern;
