//! The geometric quantities behind the sun's position.
//!
//! The sun's direction is a spherical parametrization of the clock state:
//! the polar angle grows with the day's distance from mid-year and sweeps
//! with the time-of-day, while the azimuth turns once per day. The angles
//! themselves involve pi and trigonometry, which the renderer evaluates in
//! floating point; this module derives the exact integer quantities that
//! determine them.

use vstd::prelude::*;

use crate::clock::{DayTime, DAY_LENGTH_MILLIS, YEAR_LENGTH};

verus! {

/// Mid-year: the day on which the sun stands highest.
pub const HALF_YEAR: u32 = YEAR_LENGTH / 2;

/// Noon: half of a day, in milliunits.
pub const HALF_DAY_MILLIS: u64 = DAY_LENGTH_MILLIS / 2;

/// Absolute difference of two integers.
pub open spec fn abs_diff(a: int, b: int) -> int {
    if a >= b {
        a - b
    } else {
        b - a
    }
}

/// The exact inputs to the sun's spherical angles.
///
/// The polar angle is `day_offset` angular steps plus a pi-scaled fraction
/// of the time-of-day, falling towards noon before noon and rising after
/// it; the azimuth is the time-of-day's fraction of a full day, scaled by a
/// whole turn.
#[derive(Clone, Copy, Debug, PartialEq, Eq)]
pub struct SunAngles {
    /// Distance of the current day from mid-year, in days.
    pub day_offset: u32,
    /// Whether the current time lies in the morning half of the day.
    pub pre_noon: bool,
    /// Distance of the current time from noon, in milliunits.
    pub noon_offset: u64,
    /// The current time-of-day, in milliunits.
    pub time_on_day: u64,
}

impl DayTime {
    /// Reads the clock and derives the quantities that fix the sun's
    /// spherical angles for the current day and time.
    pub fn get_sun_angles(&self) -> (r: SunAngles)
        ensures
            r.day_offset == abs_diff(self@.day, HALF_YEAR as int),
            r.pre_noon <==> self@.time_on_day < HALF_DAY_MILLIS,
            r.noon_offset == abs_diff(self@.time_on_day, HALF_DAY_MILLIS as int),
            r.time_on_day == self@.time_on_day,
    {
        let day: u32 = self.get_time_day();
        let time: u64 = self.get_time_on_day();
        let day_offset: u32 = if day >= HALF_YEAR {
            day - HALF_YEAR
        } else {
            HALF_YEAR - day
        };
        let pre_noon: bool = time < HALF_DAY_MILLIS;
        let noon_offset: u64 = if pre_noon {
            HALF_DAY_MILLIS - time
        } else {
            time - HALF_DAY_MILLIS
        };
        SunAngles { day_offset, pre_noon, noon_offset, time_on_day: time }
    }
}

} // verus!
