//! Decoding of the host's raw timer-state word.

use procmem::sys;
use procmem::timer::TimerState;

#[test]
fn known_words_decode_to_their_states() {
    assert_eq!(TimerState::from_raw(sys::TimerState(0)), Some(TimerState::NotRunning));
    assert_eq!(TimerState::from_raw(sys::TimerState(1)), Some(TimerState::Running));
    assert_eq!(TimerState::from_raw(sys::TimerState(2)), Some(TimerState::Paused));
    assert_eq!(TimerState::from_raw(sys::TimerState(3)), Some(TimerState::Ended));
}

#[test]
fn unknown_words_are_refused() {
    assert_eq!(TimerState::from_raw(sys::TimerState(4)), None);
    assert_eq!(TimerState::from_raw(sys::TimerState(u32::MAX)), None);
}
