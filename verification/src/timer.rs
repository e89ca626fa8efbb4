//! The state the host's timer can be in, decoded from the raw word the host
//! reports.
//!
//! The timer control surface itself (start, split, reset, game-time and
//! variable commands) is a set of one-shot host commands with no state inside
//! this library; only the decoding of the reported state word is logic of its
//! own.

use vstd::prelude::*;

verus! {

/// The state that the timer currently is in.
#[derive(Debug, Copy, Clone, PartialEq, Eq, Structural)]
pub enum TimerState {
    /// The timer is not running.
    NotRunning,
    /// The timer is running.
    Running,
    /// The timer started but got paused. This is separate from the game
    /// time being paused; game time may even always be paused.
    Paused,
    /// The timer has ended, but didn't get reset yet.
    Ended,
}

impl TimerState {
    /// Decodes the raw state word the host reports. A well-behaved host only
    /// produces the four known words; anything else is refused rather than
    /// guessed at.
    pub fn from_raw(raw: crate::sys::TimerState) -> (r: Option<TimerState>)
        ensures
            raw.0 == 0 ==> r == Some(TimerState::NotRunning),
            raw.0 == 1 ==> r == Some(TimerState::Running),
            raw.0 == 2 ==> r == Some(TimerState::Paused),
            raw.0 == 3 ==> r == Some(TimerState::Ended),
            raw.0 > 3 ==> r is None,
    {
        if raw.0 == 0 {
            Some(TimerState::NotRunning)
        } else if raw.0 == 1 {
            Some(TimerState::Running)
        } else if raw.0 == 2 {
            Some(TimerState::Paused)
        } else if raw.0 == 3 {
            Some(TimerState::Ended)
        } else {
            None
        }
    }
}

} // verus!
