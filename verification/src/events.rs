//! Input events that the clock reacts to.
//!
//! The host's windowing layer translates its own key notifications into
//! [`InputEvent`] values; the clock only distinguishes presses and releases
//! of the boost key and declines everything else.

use vstd::prelude::*;

verus! {

/// Key code of the boost key (the plus key). While it is held, the clock
/// advances at [`crate::clock::PLUS_TIME_SPEED`] times the normal rate.
pub const BOOST_KEY: u32 = 43;

/// Whether a key went down or came back up.
#[derive(Clone, Copy, Debug, PartialEq, Eq)]
pub enum ElementState {
    Pressed,
    Released,
}

/// A tagged input event. A keyboard notification carries the key's phase and
/// its key code, if the key has one; every other kind of event is `Other`.
#[derive(Clone, Copy, Debug, PartialEq, Eq)]
pub enum InputEvent {
    KeyboardInput(ElementState, Option<u32>),
    Other,
}

/// What an event handler answers inside a chained dispatcher: it handled the
/// event and the chain may go on, or it declines the event.
#[derive(Clone, Copy, Debug, PartialEq, Eq)]
pub enum EventResponse {
    Continue,
    NotHandled,
}

/// The event that switches the clock to boosted speed.
pub open spec fn is_boost_press(e: InputEvent) -> bool {
    e == InputEvent::KeyboardInput(ElementState::Pressed, Some(BOOST_KEY))
}

/// The event that switches the clock back to normal speed.
pub open spec fn is_boost_release(e: InputEvent) -> bool {
    e == InputEvent::KeyboardInput(ElementState::Released, Some(BOOST_KEY))
}

} // verus!
