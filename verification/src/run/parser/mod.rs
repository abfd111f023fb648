//! Parsers for the splits files of other timers.

pub mod splitterz;
