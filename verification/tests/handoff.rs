//! The cross-context slot and the one-time hand-off into the handler cache.

use blinky::level::Level;
use blinky::machine::System;
use blinky::slot::{CriticalSection, Slot};

/// A slot is created empty, holds what was stored, and hands it out once.
#[test]
fn slot_store_take_once() {
    let mut slot: Slot<u32> = Slot::new();
    assert!(!slot.occupied());

    let cs = CriticalSection::enter();
    slot.store(7, &cs);
    assert!(slot.occupied());

    let cs = CriticalSection::enter();
    assert_eq!(slot.take(&cs), Some(7));
    assert!(!slot.occupied());

    // a second take finds the slot permanently empty
    let cs = CriticalSection::enter();
    assert_eq!(slot.take(&cs), None);
}

/// Exclusivity, observably: after initialization the handles sit in the
/// slots and the handler cache is empty; after the first invocation the
/// cache holds them and the slots are empty.  Never both.
#[test]
fn handles_are_in_exactly_one_place() {
    let mut sys = System::new();
    sys.initialize(4);
    assert!(sys.pin_slot_occupied());
    assert!(sys.tim_slot_occupied());
    assert!(!sys.handler_ready());

    sys.expire();
    sys.on_interrupt();

    assert!(!sys.pin_slot_occupied());
    assert!(!sys.tim_slot_occupied());
    assert!(sys.handler_ready());
}

/// Single hand-off: the first invocation drains the slots; every later
/// invocation bypasses them and works from the handler-local cache.
#[test]
fn later_invocations_bypass_the_slots() {
    let mut sys = System::new();
    sys.initialize(2);

    sys.expire();
    sys.on_interrupt();
    assert!(sys.handler_ready());
    assert_eq!(sys.toggle_count(), 1);

    for _ in 0..5 {
        sys.expire();
        sys.on_interrupt();
        assert!(!sys.pin_slot_occupied());
        assert!(!sys.tim_slot_occupied());
        assert!(sys.handler_ready());
    }
    assert_eq!(sys.toggle_count(), 6);
    assert!(!sys.is_halted());
}

/// Initialization that stops after storing only the pin: the first
/// invocation finds the timer slot empty and halts without toggling.
#[test]
fn incomplete_init_halts_handler() {
    let mut sys = System::new();
    assert!(sys.configure_pin().is_ok());
    assert!(sys.arm_timer(3).is_ok());
    assert!(sys.store_pin().is_ok());

    sys.on_interrupt();

    assert!(sys.is_halted());
    assert_eq!(sys.level(), Level::Off);
    assert_eq!(sys.toggle_count(), 0);
    // the pin hand-off had already happened when the defect was found
    assert!(!sys.pin_slot_occupied());
    assert!(!sys.handler_ready());
}
