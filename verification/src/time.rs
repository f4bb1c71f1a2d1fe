//! Instants, durations, spans and civil times as plain values, and the calls
//! into `jiff` that need a time zone.

pub mod civil;
pub mod duration;
pub mod span;
pub mod timestamp;
pub mod zoned;
