//! The clock state and its advancement logic.
//!
//! A [`DayTime`] value tracks the simulated calendar: the year, the day of
//! the year and the time-of-day offset, together with the speed multiplier
//! applied to incoming real-time deltas. Time-of-day is a fixed-point count
//! of milliunits (one thousandth of a time unit), so a whole day spans
//! [`DAY_LENGTH_MILLIS`] milliunits.

use vstd::prelude::*;

use crate::events::{is_boost_press, is_boost_release, ElementState, EventResponse, InputEvent,
    BOOST_KEY};

verus! {

/// Length of one day, in milliunits of time.
pub const DAY_LENGTH_MILLIS: u64 = 720_000;

/// Length of one year, in days.
pub const YEAR_LENGTH: u32 = 12;

/// Speed multiplier while no boost is active: time passes at the normal rate.
pub const DEFAULT_TIME_SPEED: u64 = 1;

/// Speed multiplier while the boost key is held down.
pub const PLUS_TIME_SPEED: u64 = 1000;

/// The clock's state as mathematical integers, for contracts and proofs.
pub ghost struct ClockView {
    /// Year counter; increments on year rollover and never decreases.
    pub year: int,
    /// Day of the year, in `[0, YEAR_LENGTH)` whenever the state is in range.
    pub day: int,
    /// Time-of-day in milliunits, in `[0, DAY_LENGTH_MILLIS)` whenever the
    /// state is in range.
    pub time_on_day: int,
    /// Multiplier applied to each incoming delta.
    pub speed: int,
}

/// The simulated calendar clock.
#[derive(Debug)]
pub struct DayTime {
    time_year: u32,
    time_day: u32,
    time_on_day: u64,
    speed: u64,
}

impl View for DayTime {
    type V = ClockView;

    closed spec fn view(&self) -> ClockView {
        ClockView {
            year: self.time_year as int,
            day: self.time_day as int,
            time_on_day: self.time_on_day as int,
            speed: self.speed as int,
        }
    }
}

/// The state one `update` call produces from `v` when handed the real-time
/// delta `delta`: the scaled delta is added to the time-of-day, then at most
/// one day and at most one year rollover is applied.
pub open spec fn advanced(v: ClockView, delta: int) -> ClockView {
    let t = v.time_on_day + delta * v.speed;
    if t < DAY_LENGTH_MILLIS {
        ClockView { year: v.year, day: v.day, time_on_day: t, speed: v.speed }
    } else if v.day + 1 >= YEAR_LENGTH {
        ClockView {
            year: v.year + 1,
            day: 0,
            time_on_day: t - DAY_LENGTH_MILLIS,
            speed: v.speed,
        }
    } else {
        ClockView {
            year: v.year,
            day: v.day + 1,
            time_on_day: t - DAY_LENGTH_MILLIS,
            speed: v.speed,
        }
    }
}

impl Default for DayTime {
    /// A fresh clock: midnight of day zero of year zero, at normal speed.
    fn default() -> (d: DayTime)
        ensures
            d@ == (ClockView { year: 0, day: 0, time_on_day: 0, speed: DEFAULT_TIME_SPEED as int }),
    {
        DayTime { time_year: 0, time_day: 0, time_on_day: 0, speed: DEFAULT_TIME_SPEED }
    }
}

impl DayTime {
    /// Overwrites year, day and time-of-day with the given values and resets
    /// the speed to normal. No bounds are checked: callers that pass
    /// `time_day >= YEAR_LENGTH` or `time_on_day >= DAY_LENGTH_MILLIS` get an
    /// out-of-range state that the next `update` call normalizes by at most
    /// one rollover.
    pub fn set_time(&mut self, time_year: u32, time_day: u32, time_on_day: u64)
        ensures
            final(self)@ == (ClockView {
                year: time_year as int,
                day: time_day as int,
                time_on_day: time_on_day as int,
                speed: DEFAULT_TIME_SPEED as int,
            }),
    {
        self.time_year = time_year;
        self.time_day = time_day;
        self.time_on_day = time_on_day;
        self.speed = DEFAULT_TIME_SPEED;
    }

    /// The current year.
    pub fn get_time_year(&self) -> (r: u32)
        ensures
            r == self@.year,
    {
        self.time_year
    }

    /// The current day of the year.
    pub fn get_time_day(&self) -> (r: u32)
        ensures
            r == self@.day,
    {
        self.time_day
    }

    /// The current time-of-day, in milliunits.
    pub fn get_time_on_day(&self) -> (r: u64)
        ensures
            r == self@.time_on_day,
    {
        self.time_on_day
    }

    /// The current speed multiplier.
    pub fn get_speed(&self) -> (r: u64)
        ensures
            r == self@.speed,
    {
        self.speed
    }

    /// Advances the clock by the real-time delta `delta` (in milliunits),
    /// scaled by the current speed. If the time-of-day reaches the day
    /// length, one day is subtracted and the day counter steps, rolling the
    /// year over when the year length is reached. Only a single rollover is
    /// applied per call: a scaled delta of two days or more leaves the
    /// time-of-day out of range until later calls catch up.
    pub fn update(&mut self, delta: u64)
        requires
            old(self)@.time_on_day + delta * old(self)@.speed <= u64::MAX,
            old(self)@.day < u32::MAX,
            old(self)@.year < u32::MAX,
        ensures
            final(self)@ == advanced(old(self)@, delta as int),
    {
        let scaled: u64 = delta * self.speed;
        self.time_on_day = self.time_on_day + scaled;
        if self.time_on_day >= DAY_LENGTH_MILLIS {
            // One day has passed: remove it from the time-of-day.
            self.time_on_day = self.time_on_day - DAY_LENGTH_MILLIS;
            self.time_day = self.time_day + 1;
            if self.time_day >= YEAR_LENGTH {
                self.time_day = 0;
                self.time_year = self.time_year + 1;
            }
        }
    }

    /// Reacts to one input event. A press of the boost key switches the
    /// speed to [`PLUS_TIME_SPEED`], its release back to
    /// [`DEFAULT_TIME_SPEED`]; both are handled without swallowing the
    /// event. Every other event is declined and leaves the state unchanged.
    pub fn handle_event(&mut self, e: &InputEvent) -> (r: EventResponse)
        ensures
            final(self)@.year == old(self)@.year,
            final(self)@.day == old(self)@.day,
            final(self)@.time_on_day == old(self)@.time_on_day,
            is_boost_press(*e) ==> final(self)@.speed == PLUS_TIME_SPEED
                && r == EventResponse::Continue,
            is_boost_release(*e) ==> final(self)@.speed == DEFAULT_TIME_SPEED
                && r == EventResponse::Continue,
            !is_boost_press(*e) && !is_boost_release(*e) ==> final(self)@.speed
                == old(self)@.speed && r == EventResponse::NotHandled,
    {
        match *e {
            InputEvent::KeyboardInput(state, Some(key)) => {
                if key == BOOST_KEY {
                    match state {
                        ElementState::Pressed => {
                            self.speed = PLUS_TIME_SPEED;
                            EventResponse::Continue
                        }
                        ElementState::Released => {
                            self.speed = DEFAULT_TIME_SPEED;
                            EventResponse::Continue
                        }
                    }
                } else {
                    EventResponse::NotHandled
                }
            }
            _ => EventResponse::NotHandled,
        }
    }
}

/// While the scaled delta keeps the time-of-day short of a full day, an
/// update leaves the day and the year untouched and the new time-of-day is
/// exactly the old one plus the scaled delta.
pub proof fn lemma_update_within_day(v: ClockView, delta: int)
    requires
        v.time_on_day + delta * v.speed < DAY_LENGTH_MILLIS,
    ensures
        advanced(v, delta).day == v.day,
        advanced(v, delta).year == v.year,
        advanced(v, delta).speed == v.speed,
        advanced(v, delta).time_on_day == v.time_on_day + delta * v.speed,
{
}

/// An update of an in-range state keeps it in range as long as the scaled
/// delta spans less than one further day, and the year never decreases.
pub proof fn lemma_advanced_keeps_bounds(v: ClockView, delta: int)
    requires
        0 <= v.day < YEAR_LENGTH,
        0 <= v.time_on_day < DAY_LENGTH_MILLIS,
        0 <= delta * v.speed < DAY_LENGTH_MILLIS,
    ensures
        0 <= advanced(v, delta).day < YEAR_LENGTH,
        0 <= advanced(v, delta).time_on_day < DAY_LENGTH_MILLIS,
        advanced(v, delta).year >= v.year,
        advanced(v, delta).speed == v.speed,
{
}

} // verus!
