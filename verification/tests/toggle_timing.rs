//! Toggle parity of the output level, and the one-toggle-one-acknowledge
//! coupling between timer expiries and handler invocations.

use blinky::level::Level;
use blinky::machine::{System, TimerState};

/// A toggle is its own inverse.
#[test]
fn flip_is_complement() {
    assert_eq!(Level::Off.flip(), Level::On);
    assert_eq!(Level::On.flip(), Level::Off);
    assert_eq!(Level::Off.flip().flip(), Level::Off);
}

/// Toggle parity: even cycle counts return to the initial level, odd counts
/// sit at its complement.
#[test]
fn parity_after_many_cycles() {
    let mut even = System::new();
    even.initialize(1);
    even.run_cycles(4);
    assert_eq!(even.level(), Level::Off);
    assert_eq!(even.toggle_count(), 4);

    let mut odd = System::new();
    odd.initialize(1);
    odd.run_cycles(7);
    assert_eq!(odd.level(), Level::On);
    assert_eq!(odd.toggle_count(), 7);
}

/// Periodicity: each expiry is acknowledged exactly once and produces
/// exactly one toggle; the timer is re-armed for the next period.
#[test]
fn one_toggle_one_ack_per_expiry() {
    let mut sys = System::new();
    sys.initialize(5);
    assert_eq!(sys.timer_state(), TimerState::Armed);

    for expiries in 1..=3u64 {
        sys.expire();
        assert_eq!(sys.timer_state(), TimerState::ExpiredPendingAck);
        // no toggle happens from the expiry itself
        assert_eq!(sys.toggle_count(), expiries - 1);

        sys.on_interrupt();
        // acknowledged and re-armed, exactly one more toggle
        assert_eq!(sys.timer_state(), TimerState::Armed);
        assert_eq!(sys.toggle_count(), expiries);
    }
    assert_eq!(sys.level(), Level::On);
}
