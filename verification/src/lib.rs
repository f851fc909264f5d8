//! A deterministic in-game day/night clock.
//!
//! The clock tracks simulated time as a calendar of years, days and a
//! time-of-day offset, advances it by scaled real-time deltas with day and
//! year rollover, reacts to a boost key that accelerates time, and derives
//! the exact geometric quantities from which a renderer computes the sun's
//! direction vector.
//!
//! Time-of-day is held in fixed-point *milliunits*: one thousand milliunits
//! make one abstract time unit, so a day of 720 units is 720 000 milliunits.

pub mod clock;
pub mod events;
pub mod sun;
