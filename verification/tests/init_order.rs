//! The initialization sequence: its required order, and the fatal errors
//! when a step runs out of order or re-acquires a taken peripheral.

use blinky::machine::{InitError, Phase, System, TimerState};

/// The six steps in their documented order; interrupt delivery comes last,
/// strictly after both handles are stored in their slots.
#[test]
fn full_sequence_in_order() {
    let mut sys = System::new();
    assert_eq!(sys.current_phase(), Phase::Fresh);
    assert_eq!(sys.timer_state(), TimerState::Disarmed);

    assert_eq!(sys.configure_pin(), Ok(()));
    assert_eq!(sys.current_phase(), Phase::PinConfigured);
    assert!(sys.pin_is_configured());

    assert_eq!(sys.arm_timer(5), Ok(()));
    assert_eq!(sys.current_phase(), Phase::TimerArmed);
    assert_eq!(sys.timer_state(), TimerState::Armed);
    assert_eq!(sys.period(), 5);

    assert_eq!(sys.store_pin(), Ok(()));
    assert!(sys.pin_slot_occupied());

    assert_eq!(sys.store_timer(), Ok(()));
    assert!(sys.tim_slot_occupied());

    // both stores are complete, interrupt delivery still disabled
    assert!(!sys.interrupts_enabled());

    assert_eq!(sys.enable_expiry_notification(), Ok(()));
    assert!(!sys.interrupts_enabled());

    assert_eq!(sys.enable_interrupt_delivery(), Ok(()));
    assert!(sys.interrupts_enabled());
    assert_eq!(sys.current_phase(), Phase::Running);
    assert!(!sys.is_halted());
}

/// Arming the timer before the pin step is an ordering defect: fatal halt,
/// interrupt delivery never enabled.
#[test]
fn arm_before_configure_is_fatal() {
    let mut sys = System::new();
    assert_eq!(sys.arm_timer(1), Err(InitError::OutOfOrder));
    assert!(sys.is_halted());
    assert!(!sys.interrupts_enabled());
}

/// Acquiring the pin twice: the second acquisition finds it taken.
#[test]
fn configure_pin_twice_is_fatal() {
    let mut sys = System::new();
    assert_eq!(sys.configure_pin(), Ok(()));
    assert_eq!(sys.configure_pin(), Err(InitError::PeripheralTaken));
    assert!(sys.is_halted());
    assert!(!sys.interrupts_enabled());
}

/// Acquiring the timer twice: the second acquisition finds it taken.
#[test]
fn arm_timer_twice_is_fatal() {
    let mut sys = System::new();
    assert_eq!(sys.configure_pin(), Ok(()));
    assert_eq!(sys.arm_timer(1), Ok(()));
    assert_eq!(sys.arm_timer(1), Err(InitError::PeripheralTaken));
    assert!(sys.is_halted());
    assert!(!sys.interrupts_enabled());
}

/// Storing a handle before it was acquired is an ordering defect.
#[test]
fn store_before_acquire_is_fatal() {
    let mut sys = System::new();
    assert_eq!(sys.store_pin(), Err(InitError::OutOfOrder));
    assert!(sys.is_halted());
    assert!(!sys.interrupts_enabled());
}

/// Enabling interrupt delivery before the stores is an ordering defect: the
/// sequence refuses to expose empty slots to the handler.
#[test]
fn enable_delivery_first_is_fatal() {
    let mut sys = System::new();
    assert_eq!(sys.enable_interrupt_delivery(), Err(InitError::OutOfOrder));
    assert!(sys.is_halted());
    assert!(!sys.interrupts_enabled());
}
